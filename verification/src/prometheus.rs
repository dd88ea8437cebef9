//! The reference sink: converts each update into a batch of named, labeled
//! samples in the shape of a remote-write request for a metrics endpoint.
//!
//! The conversion rule, per field of an update: the metric name is the fixed
//! prefix joined to the lowercased field group; the sample timestamp is the
//! update timestamp divided by one million (microseconds to seconds,
//! truncating); the sample value is the raw field value, untouched; the label
//! set carries the metric name, the device identity and the field metadata,
//! with a `unit` label only when the field has a unit.

use vstd::prelude::*;
use vstd::string::StringExecFns;

use crate::update::Update;

verus! {

/// What `str::to_lowercase` returns for a given character sequence.
pub uninterp spec fn lower_of(s: Seq<char>) -> Seq<char>;

/// Relies on str::to_lowercase: the lowercase mapping of a string depends on
/// its characters alone.
#[verifier::external_body]
fn lowercase(s: &str) -> (r: String)
    ensures
        r@ == lower_of(s@),
{
    s.to_lowercase()
}

/// Whether `url::Url::parse` accepts a given character sequence.
pub uninterp spec fn url_parse_ok(s: Seq<char>) -> bool;

/// Relies on url::Url::parse: whether a string parses as a URL depends on the
/// string alone.
#[verifier::external_body]
fn url_accepted(s: &str) -> (r: bool)
    ensures
        r == url_parse_ok(s@),
{
    url::Url::parse(s).is_ok()
}

/// One string-valued label of a time series.
pub struct Label {
    pub name: String,
    pub value: String,
}

impl Clone for Label {
    fn clone(&self) -> (r: Self)
        ensures
            r == *self,
    {
        Label { name: self.name.clone(), value: self.value.clone() }
    }
}

/// One numeric sample: a timestamp in seconds and the sample value, carried
/// as its raw 64-bit encoding, which this crate never interprets.
#[derive(Clone, Copy)]
pub struct Sample {
    pub timestamp: i64,
    pub value_bits: u64,
}

/// A converted metric: the label set and the samples of one time series.
pub struct PrometheusMetric {
    pub labels: Vec<Label>,
    pub samples: Vec<Sample>,
}

/// One time series of a write request.
pub struct TimeSeries {
    pub labels: Vec<Label>,
    pub samples: Vec<Sample>,
}

/// A whole write request: one time series per converted metric.
pub struct WriteRequest {
    pub timeseries: Vec<TimeSeries>,
}

/// A label sequence as pairs of character sequences (name, value).
pub open spec fn labels_view(ls: Seq<Label>) -> Seq<(Seq<char>, Seq<char>)> {
    ls.map_values(|l: Label| (l.name@, l.value@))
}

/// A sample sequence as pairs (timestamp, raw value encoding).
pub open spec fn samples_view(ss: Seq<Sample>) -> Seq<(int, u64)> {
    ss.map_values(|s: Sample| (s.timestamp as int, s.value_bits))
}

impl PrometheusMetric {
    pub fn builder() -> (b: MetricBuilder)
        ensures
            b.labels@ =~= Seq::<Label>::empty(),
            b.samples@ =~= Seq::<Sample>::empty(),
    {
        MetricBuilder::new()
    }

    pub fn build_timeseries(&self) -> (ts: TimeSeries)
        ensures
            ts.labels@ =~= self.labels@,
            ts.samples@ =~= self.samples@,
    {
        TimeSeries { labels: clone_labels(&self.labels), samples: clone_samples(&self.samples) }
    }
}

fn clone_labels(v: &Vec<Label>) -> (r: Vec<Label>)
    ensures
        r@ =~= v@,
{
    let mut r: Vec<Label> = Vec::new();
    let mut i: usize = 0;
    while i < v.len()
        invariant
            i <= v@.len(),
            r@ =~= v@.take(i as int),
        decreases v@.len() - i,
    {
        r.push(v[i].clone());
        i = i + 1;
    }
    r
}

fn clone_samples(v: &Vec<Sample>) -> (r: Vec<Sample>)
    ensures
        r@ =~= v@,
{
    let mut r: Vec<Sample> = Vec::new();
    let mut i: usize = 0;
    while i < v.len()
        invariant
            i <= v@.len(),
            r@ =~= v@.take(i as int),
        decreases v@.len() - i,
    {
        r.push(v[i]);
        i = i + 1;
    }
    r
}

/// Accumulates the labels and samples of one metric.
pub struct MetricBuilder {
    pub labels: Vec<Label>,
    pub samples: Vec<Sample>,
}

impl MetricBuilder {
    pub fn new() -> (b: Self)
        ensures
            b.labels@ =~= Seq::<Label>::empty(),
            b.samples@ =~= Seq::<Sample>::empty(),
    {
        MetricBuilder { labels: Vec::new(), samples: Vec::new() }
    }

    pub fn build(self) -> (m: PrometheusMetric)
        ensures
            m.labels@ == self.labels@,
            m.samples@ == self.samples@,
    {
        let MetricBuilder { labels, samples } = self;
        PrometheusMetric { labels, samples }
    }

    pub fn label(self, name: &str, value: &str) -> (r: Self)
        ensures
            labels_view(r.labels@) =~= labels_view(self.labels@).push((name@, value@)),
            r.samples@ == self.samples@,
    {
        let mut labels = self.labels;
        labels.push(Label { name: name.to_owned(), value: value.to_owned() });
        MetricBuilder { labels, samples: self.samples }
    }

    pub fn sample(self, timestamp: i64, value_bits: u64) -> (r: Self)
        ensures
            samples_view(r.samples@) =~= samples_view(self.samples@).push(
                (timestamp as int, value_bits),
            ),
            r.labels@ == self.labels@,
    {
        let mut samples = self.samples;
        samples.push(Sample { timestamp, value_bits });
        MetricBuilder { labels: self.labels, samples }
    }
}

/// Integer division of a source-clock timestamp in microseconds down to
/// seconds, truncating toward zero as the executable division does.
pub open spec fn micros_to_secs(ts: int) -> int {
    if ts >= 0 {
        ts / 1_000_000
    } else {
        -((-ts) / 1_000_000)
    }
}

/// Converts an update timestamp in microseconds to seconds.
pub fn timestamp_seconds(ts: i64) -> (r: i64)
    ensures
        r == micros_to_secs(ts as int),
{
    let q = ts.checked_div(1_000_000);
    proof {
        let x = ts as int;
        if x >= 0 {
            assert(x / 1_000_000 <= x) by (nonlinear_arith)
                requires
                    x >= 0,
            ;
            assert(x / 1_000_000 >= 0) by (nonlinear_arith)
                requires
                    x >= 0,
            ;
        } else {
            assert((x * -1) / 1_000_000 <= x * -1) by (nonlinear_arith)
                requires
                    x < 0,
            ;
            assert((x * -1) / 1_000_000 >= 0) by (nonlinear_arith)
                requires
                    x < 0,
            ;
        }
    }
    q.unwrap()
}

/// The metric name produced for a field group: the fixed prefix followed by
/// the lowercased group.
pub open spec fn metric_name_spec(group: Seq<char>) -> Seq<char> {
    "sunsniff_"@ + lower_of(group)
}

/// Builds the metric name for a field group.
pub fn metric_name(group: &str) -> (r: String)
    ensures
        r@ == metric_name_spec(group@),
{
    let prefix: String = "sunsniff_".to_owned();
    prefix.concat(lowercase(group).as_str())
}

/// The exact label set owed for field `i` of an update: the metric name, the
/// device identity, the field metadata, and a `unit` label only when the
/// field's unit is non-empty.
pub open spec fn expected_labels(u: Update, i: int) -> Seq<(Seq<char>, Seq<char>)> {
    let f = u.fields@[i];
    let base = seq![
        ("__name__"@, metric_name_spec(f.group@)),
        ("inverter_id"@, u.device_id@),
        ("name"@, f.name@),
        ("id"@, f.id@),
        ("scale"@, f.scale@),
        ("bias"@, f.bias@),
        ("group"@, f.group@),
    ];
    if f.unit@.len() == 0 {
        base
    } else {
        base.push(("unit"@, f.unit@))
    }
}

/// The single sample owed for field `i` of an update: the timestamp in
/// seconds and the raw value, untouched.
pub open spec fn expected_samples(u: Update, i: int) -> Seq<(int, u64)> {
    seq![(micros_to_secs(u.timestamp as int), u.values@[i])]
}

/// Metric `m` is exactly the conversion of field `i` of update `u`.
pub open spec fn metric_matches(m: PrometheusMetric, u: Update, i: int) -> bool {
    &&& labels_view(m.labels@) == expected_labels(u, i)
    &&& samples_view(m.samples@) == expected_samples(u, i)
}

/// Converts one update into its batch of metrics, one per field, each built
/// by the exact conversion rule.
pub fn update_to_metrics(u: &Update) -> (ms: Vec<PrometheusMetric>)
    requires
        u.wf(),
    ensures
        ms@.len() == u.fields@.len(),
        forall|i: int| 0 <= i < ms@.len() ==> metric_matches(ms@[i], *u, i),
{
    let mut ms: Vec<PrometheusMetric> = Vec::new();
    let secs = timestamp_seconds(u.timestamp);
    let mut idx: usize = 0;
    while idx < u.fields.len()
        invariant
            u.wf(),
            idx <= u.fields@.len(),
            ms@.len() == idx,
            secs == micros_to_secs(u.timestamp as int),
            forall|i: int| 0 <= i < idx ==> metric_matches(ms@[i], *u, i),
        decreases u.fields@.len() - idx,
    {
        let field = &u.fields[idx];
        let name = metric_name(field.group.as_str());
        let builder = PrometheusMetric::builder()
            .sample(secs, u.values[idx])
            .label("__name__", name.as_str())
            .label("inverter_id", u.device_id.as_str())
            .label("name", field.name.as_str())
            .label("id", field.id.as_str())
            .label("scale", field.scale.as_str())
            .label("bias", field.bias.as_str())
            .label("group", field.group.as_str());
        let builder = if field.unit.as_str().is_empty() {
            builder
        } else {
            builder.label("unit", field.unit.as_str())
        };
        let metric = builder.build();
        proof {
            assert(labels_view(metric.labels@) =~= expected_labels(*u, idx as int));
            assert(samples_view(metric.samples@) =~= expected_samples(*u, idx as int));
        }
        ms.push(metric);
        idx = idx + 1;
    }
    ms
}

/// Sink-local configuration for the reference sink, as read from the process
/// configuration.
pub struct Config {
    pub url: String,
    pub username: Option<String>,
    pub password: Option<String>,
}

/// Holds the endpoint a write request is addressed to. The endpoint string is
/// known to parse as a URL.
pub struct PrometheusClient {
    pub url: String,
    pub user_agent: String,
}

impl PrometheusClient {
    /// The endpoint string parses as a URL.
    pub open spec fn wf(&self) -> bool {
        url_parse_ok(self.url@)
    }

    pub fn new(url: String) -> (c: Self)
        requires
            url_parse_ok(url@),
        ensures
            c.wf(),
            c.url@ == url@,
            c.user_agent@ == "sunsniff"@,
    {
        PrometheusClient { url, user_agent: "sunsniff".to_owned() }
    }

    /// Assembles the write request for a batch of metrics: one time series
    /// per metric, in batch order, each carrying that metric's labels and
    /// samples unchanged.
    pub fn send_write_request(&self, metrics: &Vec<PrometheusMetric>) -> (w: WriteRequest)
        ensures
            w.timeseries@.len() == metrics@.len(),
            forall|i: int|
                0 <= i < metrics@.len() ==> w.timeseries@[i].labels@ =~= metrics@[i].labels@
                    && w.timeseries@[i].samples@ =~= metrics@[i].samples@,
    {
        let mut timeseries: Vec<TimeSeries> = Vec::new();
        let mut i: usize = 0;
        while i < metrics.len()
            invariant
                i <= metrics@.len(),
                timeseries@.len() == i,
                forall|j: int|
                    0 <= j < i ==> timeseries@[j].labels@ =~= metrics@[j].labels@
                        && timeseries@[j].samples@ =~= metrics@[j].samples@,
            decreases metrics@.len() - i,
        {
            let ts = metrics[i].build_timeseries();
            timeseries.push(ts);
            i = i + 1;
        }
        WriteRequest { timeseries }
    }
}

/// The reference sink: one per configured metrics endpoint.
pub struct PrometheusReceiver {
    pub client: PrometheusClient,
}

impl PrometheusReceiver {
    /// Constructs the sink from its configuration. Returns `None` exactly
    /// when the configured endpoint does not parse as a URL.
    pub fn new(config: &Config) -> (r: Option<Self>)
        ensures
            r is Some <==> url_parse_ok(config.url@),
            r matches Some(rx) ==> rx.client.wf() && rx.client.url@ == config.url@
                && rx.client.user_agent@ == "sunsniff"@,
    {
        if url_accepted(config.url.as_str()) {
            Some(PrometheusReceiver { client: PrometheusClient::new(config.url.clone()) })
        } else {
            None
        }
    }
}

} // verus!
