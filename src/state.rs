//! The record of what this process has announced to the registry.

use vstd::prelude::*;
use crate::model::{copy_instances, copy_opt_str, instances_view, opt_str_view, Instance, InstanceView};

verus! {

/// The identity under which this process is registered: service name, group
/// and the instances announced. An empty instance list means "not registered".
#[derive(Clone, Debug)]
pub struct NamingState {
    pub service_name: String,
    pub group_name: Option<String>,
    pub service_instance: Vec<Instance>,
}

/// The mathematical value of a [`NamingState`].
pub struct NamingStateView {
    pub service_name: Seq<char>,
    pub group_name: Option<Seq<char>>,
    pub service_instance: Seq<InstanceView>,
}

impl View for NamingState {
    type V = NamingStateView;

    open spec fn view(&self) -> NamingStateView {
        NamingStateView {
            service_name: self.service_name@,
            group_name: opt_str_view(self.group_name),
            service_instance: instances_view(self.service_instance@),
        }
    }
}

/// The state of a process that has registered nothing.
pub open spec fn unregistered() -> NamingStateView {
    NamingStateView { service_name: Seq::empty(), group_name: None, service_instance: Seq::empty() }
}

/// The state that one write of the three fields leaves behind.
pub open spec fn written(
    service_name: Seq<char>,
    group_name: Option<Seq<char>>,
    service_instance: Seq<InstanceView>,
) -> NamingStateView {
    NamingStateView { service_name, group_name, service_instance }
}

impl NamingState {
    /// The empty state: no name, no group, no instance.
    pub fn new() -> (r: NamingState)
        ensures
            r@ == unregistered(),
    {
        let r = NamingState { service_name: String::new(), group_name: None, service_instance: Vec::new() };
        proof {
            assert(instances_view(r.service_instance@) =~= Seq::<InstanceView>::empty());
        }
        r
    }

    /// A deep copy of the whole record.
    pub fn snapshot(&self) -> (r: NamingState)
        ensures
            r@ == self@,
    {
        NamingState {
            service_name: self.service_name.clone(),
            group_name: copy_opt_str(&self.group_name),
            service_instance: copy_instances(&self.service_instance),
        }
    }

    /// Whether some instance is recorded as announced.
    pub fn is_registered(&self) -> (r: bool)
        ensures
            r == (self@.service_instance.len() > 0),
    {
        self.service_instance.len() > 0
    }
}

} // verus!
