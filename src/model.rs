//! Plain values exchanged with the registry: service instances, naming
//! change events and configuration entries.

use vstd::prelude::*;

verus! {

/// A network endpoint under which a service is reachable.
#[derive(Clone, Debug)]
pub struct Instance {
    pub ip: String,
    pub port: i32,
    pub metadata: Vec<(String, String)>,
    pub healthy: bool,
    pub enabled: bool,
}

/// The mathematical value of an [`Instance`].
pub struct InstanceView {
    pub ip: Seq<char>,
    pub port: i32,
    pub metadata: Seq<(Seq<char>, Seq<char>)>,
    pub healthy: bool,
    pub enabled: bool,
}

pub open spec fn pair_view(p: (String, String)) -> (Seq<char>, Seq<char>) {
    (p.0@, p.1@)
}

pub open spec fn pairs_view(s: Seq<(String, String)>) -> Seq<(Seq<char>, Seq<char>)> {
    s.map_values(|p: (String, String)| pair_view(p))
}

impl View for Instance {
    type V = InstanceView;

    open spec fn view(&self) -> InstanceView {
        InstanceView {
            ip: self.ip@,
            port: self.port,
            metadata: pairs_view(self.metadata@),
            healthy: self.healthy,
            enabled: self.enabled,
        }
    }
}

pub open spec fn instances_view(s: Seq<Instance>) -> Seq<InstanceView> {
    s.map_values(|i: Instance| i@)
}

pub open spec fn opt_str_view(o: Option<String>) -> Option<Seq<char>> {
    match o {
        Some(s) => Some(s@),
        None => None,
    }
}

/// A copy of an optional string.
pub fn copy_opt_str(o: &Option<String>) -> (r: Option<String>)
    ensures
        opt_str_view(r) == opt_str_view(*o),
{
    match o {
        Some(s) => Some(s.clone()),
        None => None,
    }
}

/// A copy of a sequence of key/value pairs.
pub fn copy_pairs(v: &Vec<(String, String)>) -> (r: Vec<(String, String)>)
    ensures
        pairs_view(r@) == pairs_view(v@),
{
    let mut r: Vec<(String, String)> = Vec::new();
    let mut i: usize = 0;
    while i < v.len()
        invariant
            i <= v.len(),
            r.len() == i,
            pairs_view(r@) =~= pairs_view(v@.subrange(0, i as int)),
        decreases v.len() - i,
    {
        let k = v[i].0.clone();
        let x = v[i].1.clone();
        let ghost before = r@;
        r.push((k, x));
        proof {
            assert(r@ == before.push((k, x)));
            assert(pair_view((k, x)) == pair_view(v@[i as int]));
            let lo = v@.subrange(0, i as int);
            let hi = v@.subrange(0, i + 1);
            assert forall|j: int| 0 <= j < i + 1 implies pairs_view(r@)[j] == pairs_view(hi)[j] by {
                if j < i {
                    assert(pairs_view(before)[j] == pairs_view(lo)[j]);
                    assert(lo[j] == hi[j]);
                }
            }
            assert(pairs_view(r@) =~= pairs_view(hi));
        }
        i = i + 1;
    }
    proof {
        assert(v@.subrange(0, v.len() as int) == v@);
    }
    r
}

impl Instance {
    /// An instance with the given address and metadata, healthy and enabled.
    pub fn new(ip: String, port: i32, metadata: Vec<(String, String)>) -> (r: Instance)
        ensures
            r@ == (InstanceView {
                ip: ip@,
                port,
                metadata: pairs_view(metadata@),
                healthy: true,
                enabled: true,
            }),
    {
        Instance { ip, port, metadata, healthy: true, enabled: true }
    }

    /// A field-by-field copy.
    pub fn copy(&self) -> (r: Instance)
        ensures
            r@ == self@,
    {
        Instance {
            ip: self.ip.clone(),
            port: self.port,
            metadata: copy_pairs(&self.metadata),
            healthy: self.healthy,
            enabled: self.enabled,
        }
    }
}

/// A copy of a list of instances.
pub fn copy_instances(v: &Vec<Instance>) -> (r: Vec<Instance>)
    ensures
        instances_view(r@) == instances_view(v@),
{
    let mut r: Vec<Instance> = Vec::new();
    let mut i: usize = 0;
    while i < v.len()
        invariant
            i <= v.len(),
            r.len() == i,
            instances_view(r@) =~= instances_view(v@.subrange(0, i as int)),
        decreases v.len() - i,
    {
        let c = v[i].copy();
        let ghost before = r@;
        r.push(c);
        proof {
            assert(r@ == before.push(c));
            let lo = v@.subrange(0, i as int);
            let hi = v@.subrange(0, i + 1);
            assert forall|j: int| 0 <= j < i + 1 implies instances_view(r@)[j] == instances_view(
                hi,
            )[j] by {
                if j < i {
                    assert(instances_view(before)[j] == instances_view(lo)[j]);
                    assert(lo[j] == hi[j]);
                }
            }
            assert(instances_view(r@) =~= instances_view(hi));
        }
        i = i + 1;
    }
    proof {
        assert(v@.subrange(0, v.len() as int) == v@);
    }
    r
}

/// A change of a service's instance list, as pushed by the registry.
#[derive(Clone, Debug)]
pub struct NamingEvent {
    pub service_name: String,
    pub group_name: String,
    pub clusters: String,
    pub instances: Option<Vec<Instance>>,
}

impl NamingEvent {
    /// The instance list that the event carries; a missing list counts as empty.
    pub open spec fn listed(&self) -> Seq<InstanceView> {
        match self.instances {
            Some(v) => instances_view(v@),
            None => Seq::empty(),
        }
    }
}

/// A configuration entry as pushed or fetched from the registry. The content
/// is opaque text.
#[derive(Clone, Debug)]
pub struct ConfigEntry {
    pub namespace: String,
    pub data_id: String,
    pub group: String,
    pub content: String,
    pub content_type: String,
}

/// The mathematical value of a [`ConfigEntry`].
pub struct ConfigView {
    pub namespace: Seq<char>,
    pub data_id: Seq<char>,
    pub group: Seq<char>,
    pub content: Seq<char>,
    pub content_type: Seq<char>,
}

impl View for ConfigEntry {
    type V = ConfigView;

    open spec fn view(&self) -> ConfigView {
        ConfigView {
            namespace: self.namespace@,
            data_id: self.data_id@,
            group: self.group@,
            content: self.content@,
            content_type: self.content_type@,
        }
    }
}

impl ConfigEntry {
    /// A field-by-field copy.
    pub fn copy(&self) -> (r: ConfigEntry)
        ensures
            r@ == self@,
    {
        ConfigEntry {
            namespace: self.namespace.clone(),
            data_id: self.data_id.clone(),
            group: self.group.clone(),
            content: self.content.clone(),
            content_type: self.content_type.clone(),
        }
    }
}

} // verus!
