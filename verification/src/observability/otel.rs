//! Settings for exporting metrics and traces over OTLP.

use vstd::prelude::*;
use crate::text::str_eq;
use crate::types::Duration;

verus! {

/// Export settings; no endpoint means export is off.
#[derive(Clone, Debug)]
pub struct OtelConfig {
    /// Metrics endpoint.
    pub metrics_endpoint: Option<String>,
    /// Traces endpoint.
    pub traces_endpoint: Option<String>,
    /// The `service.name` attribute.
    pub service_name: String,
    /// Further resource attributes (key, value); the first value of a key counts.
    pub resource_attributes: Vec<(String, String)>,
    /// Interval between metric exports.
    pub export_interval: Duration,
}

/// The attributes as a map from key to value; where a key occurs more than
/// once, its first value counts.
pub open spec fn attribute_map(attrs: Seq<(String, String)>) -> Map<Seq<char>, Seq<char>>
    decreases attrs.len(),
{
    if attrs.len() == 0 {
        Map::empty()
    } else {
        attribute_map(attrs.drop_first()).insert(attrs[0].0@, attrs[0].1@)
    }
}

proof fn lemma_map_update(attrs: Seq<(String, String)>, i: int, k: String, v: String)
    requires
        0 <= i < attrs.len(),
        k@ == attrs[i].0@,
        forall|j: int| 0 <= j < i ==> attrs[j].0@ != k@,
    ensures
        attribute_map(attrs.update(i, (k, v))) == attribute_map(attrs).insert(k@, v@),
    decreases attrs.len(),
{
    let u = attrs.update(i, (k, v));
    if i == 0 {
        assert(u.drop_first() =~= attrs.drop_first());
        assert(attribute_map(u) =~= attribute_map(attrs).insert(k@, v@));
    } else {
        let d = attrs.drop_first();
        lemma_map_update(d, i - 1, k, v);
        assert(u.drop_first() =~= d.update(i - 1, (k, v)));
        assert(attribute_map(u) =~= attribute_map(attrs).insert(k@, v@));
    }
}

proof fn lemma_map_push(attrs: Seq<(String, String)>, k: String, v: String)
    requires
        forall|j: int| 0 <= j < attrs.len() ==> attrs[j].0@ != k@,
    ensures
        attribute_map(attrs.push((k, v))) == attribute_map(attrs).insert(k@, v@),
    decreases attrs.len(),
{
    let p = attrs.push((k, v));
    if attrs.len() == 0 {
        assert(p.drop_first() =~= Seq::<(String, String)>::empty());
        assert(p[0] == (k, v));
        assert(attribute_map(p.drop_first()) == Map::<Seq<char>, Seq<char>>::empty());
        assert(attribute_map(attrs) == Map::<Seq<char>, Seq<char>>::empty());
        assert(attribute_map(p) =~= attribute_map(attrs).insert(k@, v@));
    } else {
        lemma_map_push(attrs.drop_first(), k, v);
        assert(p.drop_first() =~= attrs.drop_first().push((k, v)));
        assert(p[0] == attrs[0]);
        assert(attrs[0].0@ != k@);
        let m = attribute_map(attrs.drop_first());
        assert(attribute_map(p) == attribute_map(p.drop_first()).insert(p[0].0@, p[0].1@));
        assert(attribute_map(p) == m.insert(k@, v@).insert(attrs[0].0@, attrs[0].1@));
        assert(attribute_map(attrs) == m.insert(attrs[0].0@, attrs[0].1@));
        assert(attribute_map(p) =~= attribute_map(attrs).insert(k@, v@));
    }
}

impl OtelConfig {
    /// The resource attributes as a map.
    pub open spec fn attributes(&self) -> Map<Seq<char>, Seq<char>> {
        attribute_map(self.resource_attributes@)
    }

    /// Settings for `service_name`: no endpoints, no attributes, a 60-second interval.
    pub fn new(service_name: String) -> (c: Self)
        ensures
            c.metrics_endpoint is None,
            c.traces_endpoint is None,
            c.service_name@ == service_name@,
            c.attributes() == Map::<Seq<char>, Seq<char>>::empty(),
            c.export_interval == Duration::from_secs_spec(60),
    {
        OtelConfig {
            metrics_endpoint: None,
            traces_endpoint: None,
            service_name,
            resource_attributes: Vec::new(),
            export_interval: Duration::from_secs(60),
        }
    }

    /// Sets the metrics endpoint.
    pub fn with_metrics_endpoint(self, endpoint: String) -> (c: Self)
        ensures
            c.metrics_endpoint == Some(endpoint),
            c.export_interval == self.export_interval,
            c.service_name == self.service_name,
            c.traces_endpoint == self.traces_endpoint,
            c.attributes() == self.attributes(),
    {
        OtelConfig { metrics_endpoint: Some(endpoint), ..self }
    }

    /// Sets the traces endpoint.
    pub fn with_traces_endpoint(self, endpoint: String) -> (c: Self)
        ensures
            c.traces_endpoint == Some(endpoint),
            c.export_interval == self.export_interval,
            c.metrics_endpoint == self.metrics_endpoint,
            c.service_name == self.service_name,
            c.attributes() == self.attributes(),
    {
        OtelConfig { traces_endpoint: Some(endpoint), ..self }
    }

    /// Adds the attribute `key` with `value`, replacing an earlier value of `key`.
    pub fn with_attribute(self, key: String, value: String) -> (c: Self)
        ensures
            c.attributes() == self.attributes().insert(key@, value@),
            c.metrics_endpoint == self.metrics_endpoint,
            c.traces_endpoint == self.traces_endpoint,
            c.service_name == self.service_name,
            c.export_interval == self.export_interval,
    {
        let mut attrs = self.resource_attributes;
        let mut i: usize = 0;
        while i < attrs.len()
            invariant
                i <= attrs@.len(),
                attrs@ == self.resource_attributes@,
                forall|j: int| 0 <= j < i ==> attrs@[j].0@ != key@,
            decreases attrs@.len() - i,
        {
            if str_eq(attrs[i].0.as_str(), key.as_str()) {
                let ghost before = attrs@;
                let k2 = attrs[i].0.clone();
                proof {
                    lemma_map_update(before, i as int, k2, value);
                }
                attrs.set(i, (k2, value));
                return OtelConfig { resource_attributes: attrs, ..self };
            }
            i = i + 1;
        }
        let ghost before = attrs@;
        proof {
            lemma_map_push(before, key, value);
        }
        attrs.push((key, value));
        OtelConfig { resource_attributes: attrs, ..self }
    }

    /// Sets the export interval.
    pub fn with_export_interval(self, interval: Duration) -> (c: Self)
        ensures
            c.export_interval == interval,
            c.metrics_endpoint == self.metrics_endpoint,
            c.service_name == self.service_name,
            c.traces_endpoint == self.traces_endpoint,
            c.attributes() == self.attributes(),
    {
        OtelConfig { export_interval: interval, ..self }
    }
}

} // verus!
