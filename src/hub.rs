//! The event hub: the callback target of the registry transport. It keeps
//! the last pushed instance list of each service and the last pushed entry of
//! each configuration, and fans every push out to any number of consumers.
//!
//! The caches are `dashmap` maps; the fan-out uses `async_broadcast` channels
//! in overflow mode, so a push never waits for a slow consumer: when the
//! channel is full its oldest item gives way.

use vstd::prelude::*;
use async_broadcast::{Receiver, Sender};
use dashmap::DashMap;
use crate::model::{copy_instances, instances_view, ConfigEntry, ConfigView, Instance, InstanceView, NamingEvent};

verus! {

#[verifier::external_type_specification]
#[verifier::external_body]
#[verifier::reject_recursive_types(K)]
#[verifier::reject_recursive_types(V)]
#[verifier::reject_recursive_types(S)]
pub struct ExDashMap<K, V, S>(DashMap<K, V, S>);

#[verifier::external_type_specification]
#[verifier::external_body]
#[verifier::reject_recursive_types(T)]
pub struct ExSender<T>(Sender<T>);

#[verifier::external_type_specification]
#[verifier::external_body]
#[verifier::reject_recursive_types(T)]
pub struct ExReceiver<T>(Receiver<T>);

/// The mathematical value of the instance cache.
pub type InstanceTable = Map<Seq<char>, Seq<InstanceView>>;

/// The mathematical value of the configuration cache.
pub type ConfigTable = Map<Seq<char>, ConfigView>;

/// How many undelivered items each channel holds before the oldest gives way.
pub const CHANNEL_CAPACITY: usize = 100;

/// What the instance cache holds: for each service name, its instance list.
pub uninterp spec fn instance_cache_contents(m: DashMap<String, Vec<Instance>>) -> Map<Seq<char>, Seq<InstanceView>>;

/// What the configuration cache holds: for each data id, its entry.
pub uninterp spec fn config_cache_contents(m: DashMap<String, ConfigEntry>) -> Map<Seq<char>, ConfigView>;

/// Relies on `DashMap::new`: a map with no entry.
#[verifier::external_body]
fn new_instance_cache() -> (r: DashMap<String, Vec<Instance>>)
    ensures
        instance_cache_contents(r) == InstanceTable::empty(),
{
    DashMap::new()
}

/// Relies on `DashMap::insert`: the key now maps to the value, whether or
/// not it was there before; other keys are untouched.
#[verifier::external_body]
fn store_instances(m: &mut DashMap<String, Vec<Instance>>, key: String, value: Vec<Instance>)
    ensures
        instance_cache_contents(*final(m)) == instance_cache_contents(*old(m)).insert(
            key@,
            instances_view(value@),
        ),
{
    m.insert(key, value);
}

/// Relies on `DashMap::get`: the value under the key, if any, handed out as
/// a clone (the derived, field-by-field clone of `Instance`).
#[verifier::external_body]
fn load_instances(m: &DashMap<String, Vec<Instance>>, key: &String) -> (r: Option<Vec<Instance>>)
    ensures
        r is Some <==> instance_cache_contents(*m).contains_key(key@),
        r is Some ==> instances_view(r->0@) == instance_cache_contents(*m)[key@],
{
    m.get(key).map(|e| e.value().clone())
}

/// Relies on `DashMap::new`: a map with no entry.
#[verifier::external_body]
fn new_config_cache() -> (r: DashMap<String, ConfigEntry>)
    ensures
        config_cache_contents(r) == ConfigTable::empty(),
{
    DashMap::new()
}

/// Relies on `DashMap::insert`: the key now maps to the value, whether or
/// not it was there before; other keys are untouched.
#[verifier::external_body]
fn store_config(m: &mut DashMap<String, ConfigEntry>, key: String, value: ConfigEntry)
    ensures
        config_cache_contents(*final(m)) == config_cache_contents(*old(m)).insert(key@, value@),
{
    m.insert(key, value);
}

/// Relies on `DashMap::get`: the value under the key, if any, handed out as
/// a clone (the derived, field-by-field clone of `ConfigEntry`).
#[verifier::external_body]
fn load_config(m: &DashMap<String, ConfigEntry>, key: &String) -> (r: Option<ConfigEntry>)
    ensures
        r is Some <==> config_cache_contents(*m).contains_key(key@),
        r is Some ==> r->0@ == config_cache_contents(*m)[key@],
{
    m.get(key).map(|e| e.value().clone())
}

/// Relies on `async_broadcast::broadcast`, which panics on a zero capacity:
/// a sender and a first receiver on a new channel.
#[verifier::external_body]
fn open_channel<T>(capacity: usize) -> (r: (Sender<T>, Receiver<T>))
    requires
        capacity > 0,
{
    async_broadcast::broadcast(capacity)
}

/// Relies on `Sender::set_overflow(true)`: a full channel then drops its
/// oldest item to take a new one.
#[verifier::external_body]
fn allow_overflow<T>(s: &mut Sender<T>) {
    s.set_overflow(true);
}

/// How a push onto a channel went.
#[derive(Clone, Copy, Debug, PartialEq, Eq)]
pub enum Delivery {
    /// The item was queued.
    Queued,
    /// The item was queued and the oldest one was dropped to make room.
    DisplacedOldest,
    /// The channel took nothing: it is closed or has no active receiver.
    Refused,
}

/// Relies on `Sender::try_broadcast`: it never waits. Which outcome comes
/// depends on the channel's state, which other handles share.
#[verifier::external_body]
fn offer<T: Clone>(s: &Sender<T>, msg: T) -> (r: Delivery) {
    match s.try_broadcast(msg) {
        Ok(None) => Delivery::Queued,
        Ok(Some(_)) => Delivery::DisplacedOldest,
        Err(_) => Delivery::Refused,
    }
}

/// Relies on `Sender::new_receiver`: a receiver that sees what is pushed from
/// now on.
#[verifier::external_body]
fn new_consumer<T>(s: &Sender<T>) -> (r: Receiver<T>) {
    s.new_receiver()
}

/// The instance cache after a naming event: the event's list, empty when it
/// carries none, replaces what was kept for its service.
pub open spec fn after_naming_event(
    cache: Map<Seq<char>, Seq<InstanceView>>,
    event: NamingEvent,
) -> Map<Seq<char>, Seq<InstanceView>> {
    cache.insert(event.service_name@, event.listed())
}

/// The configuration cache after a change: the entry replaces what was kept
/// for its data id.
pub open spec fn after_config_change(cache: Map<Seq<char>, ConfigView>, entry: ConfigEntry) -> Map<
    Seq<char>,
    ConfigView,
> {
    cache.insert(entry.data_id@, entry@)
}

/// The callback target of the registry transport: two caches and two
/// broadcast channels.
pub struct NacosEventListener {
    sub_svc_map: DashMap<String, Vec<Instance>>,
    sub_svc_change_sender: Sender<NamingEvent>,
    sub_svc_change_receiver: Receiver<NamingEvent>,
    config_data_map: DashMap<String, ConfigEntry>,
    config_change_sender: Sender<ConfigEntry>,
    config_change_receiver: Receiver<ConfigEntry>,
}

impl NacosEventListener {
    /// The last instance list kept for each service.
    pub closed spec fn instances(&self) -> Map<Seq<char>, Seq<InstanceView>> {
        instance_cache_contents(self.sub_svc_map)
    }

    /// The last entry kept for each configuration data id.
    pub closed spec fn configs(&self) -> Map<Seq<char>, ConfigView> {
        config_cache_contents(self.config_data_map)
    }

    /// A hub with empty caches and two channels of [`CHANNEL_CAPACITY`]
    /// items in overflow mode.
    pub fn new() -> (r: Self)
        ensures
            r.instances() == InstanceTable::empty(),
            r.configs() == ConfigTable::empty(),
    {
        let (mut sub_svc_s, sub_svc_r) = open_channel(CHANNEL_CAPACITY);
        allow_overflow(&mut sub_svc_s);
        let (mut config_s, config_r) = open_channel(CHANNEL_CAPACITY);
        allow_overflow(&mut config_s);
        NacosEventListener {
            sub_svc_map: new_instance_cache(),
            sub_svc_change_sender: sub_svc_s,
            sub_svc_change_receiver: sub_svc_r,
            config_data_map: new_config_cache(),
            config_change_sender: config_s,
            config_change_receiver: config_r,
        }
    }

    /// Takes a naming event: its instance list, empty when it carries none,
    /// replaces what was kept for its service, and the event goes out on the
    /// instance channel without waiting. A full channel drops its oldest
    /// item; a channel that takes nothing is passed over. Nothing fails.
    pub fn event(&mut self, event: NamingEvent) -> (r: Delivery)
        ensures
            final(self).instances() == after_naming_event(old(self).instances(), event),
            final(self).configs() == old(self).configs(),
    {
        let name = event.service_name.clone();
        let list = match &event.instances {
            Some(v) => copy_instances(v),
            None => {
                let empty: Vec<Instance> = Vec::new();
                proof {
                    assert(instances_view(empty@) =~= Seq::<InstanceView>::empty());
                }
                empty
            },
        };
        store_instances(&mut self.sub_svc_map, name, list);
        offer(&self.sub_svc_change_sender, event)
    }

    /// Takes a configuration change: the entry replaces what was kept for its
    /// data id, and it goes out on the configuration channel without waiting,
    /// as [`Self::event`] does.
    pub fn notify(&mut self, config_resp: ConfigEntry) -> (r: Delivery)
        ensures
            final(self).configs() == after_config_change(old(self).configs(), config_resp),
            final(self).instances() == old(self).instances(),
    {
        let kept = config_resp.copy();
        let key = config_resp.data_id.clone();
        store_config(&mut self.config_data_map, key, kept);
        offer(&self.config_change_sender, config_resp)
    }

    /// The instance list last kept for a service, if any.
    pub fn cached_instances(&self, service_name: &String) -> (r: Option<Vec<Instance>>)
        ensures
            r is Some <==> self.instances().contains_key(service_name@),
            r is Some ==> instances_view(r->0@) == self.instances()[service_name@],
    {
        load_instances(&self.sub_svc_map, service_name)
    }

    /// The configuration entry last kept for a data id, if any.
    pub fn cached_config(&self, data_id: &String) -> (r: Option<ConfigEntry>)
        ensures
            r is Some <==> self.configs().contains_key(data_id@),
            r is Some ==> r->0@ == self.configs()[data_id@],
    {
        load_config(&self.config_data_map, data_id)
    }

    /// A new consumer of naming events; it sees those pushed from now on.
    pub fn instance_events(&self) -> Receiver<NamingEvent> {
        new_consumer(&self.sub_svc_change_sender)
    }

    /// A new consumer of configuration changes; it sees those pushed from now
    /// on.
    pub fn config_events(&self) -> Receiver<ConfigEntry> {
        new_consumer(&self.config_change_sender)
    }
}

/// Of two naming events for one service, the cache keeps the later one's
/// list, whatever was kept before.
pub proof fn later_naming_event_wins(
    cache: Map<Seq<char>, Seq<InstanceView>>,
    first: NamingEvent,
    second: NamingEvent,
)
    requires
        first.service_name@ == second.service_name@,
    ensures
        after_naming_event(after_naming_event(cache, first), second)[second.service_name@]
            == second.listed(),
        after_naming_event(after_naming_event(cache, first), second) == after_naming_event(
            cache,
            second,
        ),
{
    assert(after_naming_event(after_naming_event(cache, first), second) =~= after_naming_event(
        cache,
        second,
    ));
}

/// Of two changes of one configuration entry, the cache keeps the later one.
pub proof fn later_config_change_wins(
    cache: Map<Seq<char>, ConfigView>,
    first: ConfigEntry,
    second: ConfigEntry,
)
    requires
        first.data_id@ == second.data_id@,
    ensures
        after_config_change(after_config_change(cache, first), second)[second.data_id@]
            == second@,
        after_config_change(after_config_change(cache, first), second) == after_config_change(
            cache,
            second,
        ),
{
    assert(after_config_change(after_config_change(cache, first), second) =~= after_config_change(
        cache,
        second,
    ));
}

} // verus!
