//! The facade's own decisions: the state it keeps, what it hands to the
//! transport, and what it makes of each answer the transport gives.
//!
//! Every transport call is made by the caller; the functions here take what
//! the call returned and decide the result and the new state.

use vstd::prelude::*;
use vstd::string::StringExecFns;
use crate::model::{copy_opt_str, instances_view, opt_str_view, pairs_view, ConfigEntry, Instance, InstanceView};
use crate::settings::{kept, lower_of, namespace_for, present, ClientSettings};
use crate::state::{unregistered, written, NamingState, NamingStateView};

verus! {

/// What went wrong, with the message that tells it.
#[derive(Clone, Debug)]
pub enum FacadeError {
    /// Building the transport, adding a listener or fetching an entry failed.
    Config(String),
    /// Registering or deregistering was rejected.
    Registry(String),
    /// Subscribing to a service failed.
    Subscription(String),
    /// No local address could be found.
    Network(String),
}

impl FacadeError {
    pub open spec fn text(&self) -> Seq<char> {
        match self {
            FacadeError::Config(m) => m@,
            FacadeError::Registry(m) => m@,
            FacadeError::Subscription(m) => m@,
            FacadeError::Network(m) => m@,
        }
    }

    /// The message of the error.
    pub fn message(&self) -> (r: String)
        ensures
            r@ == self.text(),
    {
        match self {
            FacadeError::Config(m) => m.clone(),
            FacadeError::Registry(m) => m.clone(),
            FacadeError::Subscription(m) => m.clone(),
            FacadeError::Network(m) => m.clone(),
        }
    }
}

/// `prefix` followed by `s`.
fn prefixed(prefix: &str, s: &str) -> (r: String)
    ensures
        r@ == prefix@ + s@,
{
    let mut r = String::from_str(prefix);
    r.append(s);
    r
}

/// Relies on `nacos_sdk::api::constants::DEFAULT_GROUP`, the group that the
/// registry uses when none is named.
#[verifier::external_body]
fn default_group() -> (r: String)
    ensures
        r@ == "DEFAULT_GROUP"@,
{
    nacos_sdk::api::constants::DEFAULT_GROUP.to_string()
}

/// Relies on `local_ip_address::local_ip`: the address of this host that
/// faces the network, as text, or the reason none was found. Which address
/// comes back depends on the machine.
#[verifier::external_body]
fn discover_local_ip() -> (r: Result<String, String>) {
    match local_ip_address::local_ip() {
        Ok(addr) => Ok(addr.to_string()),
        Err(e) => Err(e.to_string()),
    }
}

/// The group a registration goes under: the one given, else the default.
pub open spec fn chosen_group(group_name: Option<String>) -> Seq<char> {
    match group_name {
        Some(g) => g@,
        None => "DEFAULT_GROUP"@,
    }
}

/// What is handed to the transport to register this process.
#[derive(Clone, Debug)]
pub struct Registration {
    pub service_name: String,
    pub group_name: Option<String>,
    pub instance: Instance,
}

/// The outcome of deregistering every recorded instance: the line to log for
/// those that went away, and the error that lists those that did not.
#[derive(Debug)]
pub struct DeregisterOutcome {
    pub log_line: String,
    pub result: Result<(), FacadeError>,
}

/// The parts joined with `sep` between each two.
pub open spec fn join(parts: Seq<Seq<char>>, sep: Seq<char>) -> Seq<char>
    decreases parts.len(),
{
    if parts.len() == 0 {
        Seq::empty()
    } else if parts.len() == 1 {
        parts[0]
    } else {
        join(parts.drop_last(), sep) + sep + parts.last()
    }
}

/// The messages of the failed calls among the first `n` outcomes, in order.
pub open spec fn failures(outcomes: Seq<Result<(), String>>, n: int) -> Seq<Seq<char>>
    decreases n,
{
    if n <= 0 {
        Seq::empty()
    } else {
        let rest = failures(outcomes, n - 1);
        match outcomes[n - 1] {
            Ok(_) => rest,
            Err(e) => rest.push(e@),
        }
    }
}

/// `service@ip` for each instance among the first `n` whose call succeeded,
/// in order.
pub open spec fn successes(
    service_name: Seq<char>,
    instances: Seq<InstanceView>,
    outcomes: Seq<Result<(), String>>,
    n: int,
) -> Seq<Seq<char>>
    decreases n,
{
    if n <= 0 {
        Seq::empty()
    } else {
        let rest = successes(service_name, instances, outcomes, n - 1);
        match outcomes[n - 1] {
            Ok(_) => rest.push(service_name + "@"@ + instances[n - 1].ip),
            Err(_) => rest,
        }
    }
}

proof fn lemma_join_push(parts: Seq<Seq<char>>, sep: Seq<char>, x: Seq<char>)
    ensures
        join(parts.push(x), sep) == if parts.len() == 0 {
            x
        } else {
            join(parts, sep) + sep + x
        },
{
    assert(parts.push(x).drop_last() =~= parts);
}

/// `acc` with `x` added as one more part after `sep`.
fn push_part(acc: &mut String, count: usize, sep: &str, x: &str, Ghost(parts): Ghost<Seq<Seq<char>>>)
    requires
        old(acc)@ == join(parts, sep@),
        count == parts.len(),
    ensures
        final(acc)@ == join(parts.push(x@), sep@),
{
    proof {
        lemma_join_push(parts, sep@, x@);
    }
    if count > 0 {
        acc.append(sep);
    }
    acc.append(x);
}

/// Each part of a join stands in the joined text.
pub proof fn join_holds_every_part(parts: Seq<Seq<char>>, sep: Seq<char>, j: int)
    requires
        0 <= j < parts.len(),
    ensures
        exists|off: int|
            0 <= off && off + parts[j].len() <= join(parts, sep).len() && #[trigger] join(
                parts,
                sep,
            ).subrange(off, off + parts[j].len()) == parts[j],
    decreases parts.len(),
{
    let whole = join(parts, sep);
    if parts.len() == 1 {
        assert(whole.subrange(0, parts[0].len() as int) =~= parts[0]);
        assert(join(parts, sep).subrange(0, 0 + parts[j].len() as int) == parts[j]);
    } else {
        let pre = join(parts.drop_last(), sep);
        let last = parts.last();
        assert(whole == pre + sep + last);
        if j == parts.len() - 1 {
            let off = (pre.len() + sep.len()) as int;
            assert(whole.subrange(off, off + last.len()) =~= last);
            assert(join(parts, sep).subrange(off, off + parts[j].len()) == parts[j]);
        } else {
            join_holds_every_part(parts.drop_last(), sep, j);
            let off = choose|off: int|
                0 <= off && off + parts.drop_last()[j].len() <= pre.len() && #[trigger] join(
                    parts.drop_last(),
                    sep,
                ).subrange(off, off + parts.drop_last()[j].len()) == parts.drop_last()[j];
            assert(whole.subrange(off, off + parts[j].len()) =~= pre.subrange(
                off,
                off + parts[j].len(),
            ));
            assert(join(parts, sep).subrange(off, off + parts[j].len()) == parts[j]);
        }
    }
}

/// The message of every failed call is among the failures, in the order
/// of the calls.
pub proof fn failures_hold_every_error(outcomes: Seq<Result<(), String>>, n: int, k: int)
    requires
        0 <= k < n <= outcomes.len(),
        outcomes[k] is Err,
    ensures
        exists|j: int|
            0 <= j < failures(outcomes, n).len() && #[trigger] failures(outcomes, n)[j]
                == outcomes[k]->Err_0@,
    decreases n,
{
    let rest = failures(outcomes, n - 1);
    if k == n - 1 {
        assert(failures(outcomes, n)[rest.len() as int] == outcomes[k]->Err_0@);
    } else {
        failures_hold_every_error(outcomes, n - 1, k);
        let j = choose|j: int|
            0 <= j < failures(outcomes, n - 1).len() && #[trigger] failures(outcomes, n - 1)[j]
                == outcomes[k]->Err_0@;
        assert(failures(outcomes, n)[j] == rest[j]);
    }
}

/// The message of a failed deregistration.
pub open spec fn deregister_error_text(outcomes: Seq<Result<(), String>>) -> Seq<char> {
    "failed to deregister instances: "@ + join(failures(outcomes, outcomes.len() as int), ", "@)
}

/// When some deregistration calls fail, the error that comes back holds the
/// message of each of them: they are joined with ", " in the order of the
/// calls, after a fixed prefix.
pub proof fn deregister_error_holds_every_failure(outcomes: Seq<Result<(), String>>, k: int)
    requires
        0 <= k < outcomes.len(),
        outcomes[k] is Err,
    ensures
        exists|off: int|
            0 <= off && off + outcomes[k]->Err_0@.len() <= deregister_error_text(outcomes).len()
                && #[trigger] deregister_error_text(outcomes).subrange(
                off,
                off + outcomes[k]->Err_0@.len(),
            ) == outcomes[k]->Err_0@,
{
    let n = outcomes.len() as int;
    let e = outcomes[k]->Err_0@;
    failures_hold_every_error(outcomes, n, k);
    let parts = failures(outcomes, n);
    let j = choose|j: int| 0 <= j < parts.len() && #[trigger] parts[j] == e;
    join_holds_every_part(parts, ", "@, j);
    let joined = join(parts, ", "@);
    let off = choose|off: int|
        0 <= off && off + parts[j].len() <= joined.len() && #[trigger] join(
            parts,
            ", "@,
        ).subrange(off, off + parts[j].len()) == parts[j];
    let pre = "failed to deregister instances: "@;
    let text = deregister_error_text(outcomes);
    assert(text == pre + joined);
    assert(text.subrange(pre.len() + off, pre.len() + off + e.len()) =~= joined.subrange(
        off,
        off + e.len(),
    ));
}

/// A snapshot taken after a write of the record is that write, all three
/// fields of it: no field of an earlier state and no field of another write
/// is mixed in.
pub proof fn snapshot_is_one_whole_write(
    facade: NacosNamingAndConfigData,
    snapshot: NamingStateView,
    service_name: Seq<char>,
    group_name: Option<Seq<char>>,
    service_instance: Seq<InstanceView>,
)
    requires
        facade.state() == written(service_name, group_name, service_instance),
        snapshot == facade.state(),
    ensures
        snapshot.service_name == service_name,
        snapshot.group_name == group_name,
        snapshot.service_instance == service_instance,
{
}

/// The facade's state: the settings the transport was built from and the
/// record of what this process registered.
pub struct NacosNamingAndConfigData {
    settings: ClientSettings,
    state: NamingState,
}

impl NacosNamingAndConfigData {
    /// The record of what this process registered.
    pub closed spec fn state(&self) -> NamingStateView {
        self.state@
    }

    /// The settings the transport is built from.
    pub closed spec fn spec_settings(&self) -> ClientSettings {
        self.settings
    }

    /// The settings the transport is built from.
    pub fn settings(&self) -> (r: &ClientSettings)
        ensures
            *r == self.spec_settings(),
    {
        &self.settings
    }

    /// A facade for the given connection parameters, with nothing registered.
    /// The namespace `public`, in any letter case, becomes the empty string;
    /// authentication is on exactly when a credential is given and not empty.
    pub fn new(
        server_addr: String,
        namespace: String,
        app_name: String,
        user_name: Option<String>,
        password: Option<String>,
    ) -> (r: Self)
        ensures
            r.state() == unregistered(),
            r.spec_settings().server_addr@ == server_addr@,
            r.spec_settings().namespace@ == namespace_for(namespace@, lower_of(namespace@)),
            r.spec_settings().app_name@ == app_name@,
            r.spec_settings().http_login == (present(user_name) || present(password)),
            opt_str_view(r.spec_settings().username) == kept(user_name),
            opt_str_view(r.spec_settings().password) == kept(password),
    {
        let settings = ClientSettings::new(server_addr, namespace, app_name, user_name, password);
        NacosNamingAndConfigData { settings, state: NamingState::new() }
    }

    /// A copy of the whole record, taken at once.
    pub fn get_state(&self) -> (r: NamingState)
        ensures
            r@ == self.state(),
    {
        self.state.snapshot()
    }

    /// Replaces all three fields of the record in one step.
    pub fn update_state(
        &mut self,
        service_name: String,
        group_name: Option<String>,
        service_instance: Vec<Instance>,
    )
        ensures
            final(self).state() == written(
                service_name@,
                opt_str_view(group_name),
                instances_view(service_instance@),
            ),
            final(self).spec_settings() == old(self).spec_settings(),
    {
        self.state = NamingState { service_name, group_name, service_instance };
    }

    /// The group that subscriptions go under: the one recorded, if any.
    pub fn subscription_group(&self) -> (r: Option<String>)
        ensures
            opt_str_view(r) == self.state().group_name,
    {
        copy_opt_str(&self.state.group_name)
    }

    /// The address to register under: the one given, else what local
    /// discovery found.
    pub fn address_from(service_ip: Option<String>, found: Result<String, String>) -> (r: Result<String, FacadeError>)
        ensures
            match service_ip {
                Some(ip) => r is Ok && r->Ok_0@ == ip@,
                None => match found {
                    Ok(a) => r is Ok && r->Ok_0@ == a@,
                    Err(e) => r is Err && r->Err_0 is Network && r->Err_0.text() == e@,
                },
            },
    {
        match service_ip {
            Some(ip) => Ok(ip),
            None => match found {
                Ok(a) => Ok(a),
                Err(e) => Err(FacadeError::Network(e)),
            },
        }
    }

    /// The address to register under: the one given, else one discovered on
    /// this host. Only discovery can fail, with a network error.
    pub fn choose_address(service_ip: Option<String>) -> (r: Result<String, FacadeError>)
        ensures
            service_ip is Some ==> r is Ok && r->Ok_0@ == service_ip->0@,
            r is Err ==> service_ip is None && r->Err_0 is Network,
    {
        match service_ip {
            Some(ip) => Ok(ip),
            None => Self::address_from(None, discover_local_ip()),
        }
    }

    /// What to hand to the transport to register `service_name` at
    /// `service_ip:service_port`: one healthy, enabled instance carrying the
    /// metadata, under the group given or else the default group.
    pub fn prepare_registration(
        service_name: String,
        service_port: i32,
        service_ip: String,
        group_name: Option<String>,
        service_metadata: Vec<(String, String)>,
    ) -> (r: Registration)
        ensures
            r.service_name@ == service_name@,
            opt_str_view(r.group_name) == Some(chosen_group(group_name)),
            r.instance@ == (InstanceView {
                ip: service_ip@,
                port: service_port,
                metadata: pairs_view(service_metadata@),
                healthy: true,
                enabled: true,
            }),
    {
        let group = match group_name {
            Some(g) => g,
            None => default_group(),
        };
        Registration {
            service_name,
            group_name: Some(group),
            instance: Instance::new(service_ip, service_port, service_metadata),
        }
    }

    /// Concludes a registration from the transport's answer. On success the
    /// record becomes the registration and the one registered instance is
    /// returned; on failure the record is left as it was and the transport's
    /// message comes back as a registry error.
    pub fn register_service(&mut self, reg: Registration, outcome: Result<(), String>) -> (r: Result<Vec<Instance>, FacadeError>)
        ensures
            final(self).spec_settings() == old(self).spec_settings(),
            outcome is Ok ==> r is Ok && instances_view(r->Ok_0@) == seq![reg.instance@]
                && final(self).state() == written(
                reg.service_name@,
                opt_str_view(reg.group_name),
                seq![reg.instance@],
            ),
            outcome is Err ==> r is Err && r->Err_0 is Registry && r->Err_0.text()
                == outcome->Err_0@ && final(self).state() == old(self).state(),
    {
        match outcome {
            Ok(_) => {
                let kept = reg.instance.copy();
                let recorded = vec![reg.instance];
                proof {
                    assert(instances_view(recorded@) =~= seq![kept@]);
                }
                self.update_state(reg.service_name, reg.group_name, recorded);
                let returned = vec![kept];
                proof {
                    assert(instances_view(returned@) =~= seq![kept@]);
                }
                Ok(returned)
            },
            Err(e) => Err(FacadeError::Registry(e)),
        }
    }
    /// Concludes a deregistration of the instances recorded in `state`, given
    /// the transport's answer for each of them, in order. Every instance was
    /// tried. The log line names `service@ip` of each one that went away; if
    /// any call failed, the result is a registry error that joins all their
    /// messages with ", ".
    pub fn deregister_service(state: &NamingState, outcomes: &Vec<Result<(), String>>) -> (r: DeregisterOutcome)
        requires
            outcomes.len() == state.service_instance.len(),
        ensures
            r.log_line@ == "deregister instances: "@ + join(
                successes(
                    state@.service_name,
                    state@.service_instance,
                    outcomes@,
                    outcomes.len() as int,
                ),
                ", "@,
            ),
            failures(outcomes@, outcomes.len() as int).len() == 0 ==> r.result is Ok,
            failures(outcomes@, outcomes.len() as int).len() > 0 ==> r.result is Err
                && r.result->Err_0 is Registry && r.result->Err_0.text()
                == deregister_error_text(outcomes@),
    {
        let ghost name = state@.service_name;
        let ghost insts = state@.service_instance;
        let mut errs = String::new();
        let mut nerr: usize = 0;
        let mut done = String::new();
        let mut ndone: usize = 0;
        let mut i: usize = 0;
        while i < outcomes.len()
            invariant
                i <= outcomes.len(),
                outcomes.len() == state.service_instance.len(),
                name == state@.service_name,
                insts == state@.service_instance,
                errs@ == join(failures(outcomes@, i as int), ", "@),
                nerr == failures(outcomes@, i as int).len(),
                done@ == join(successes(name, insts, outcomes@, i as int), ", "@),
                ndone == successes(name, insts, outcomes@, i as int).len(),
                nerr <= i,
                ndone <= i,
            decreases outcomes.len() - i,
        {
            match &outcomes[i] {
                Ok(_) => {
                    let mut item = prefixed(state.service_name.as_str(), "@");
                    item.append(state.service_instance[i].ip.as_str());
                    push_part(
                        &mut done,
                        ndone,
                        ", ",
                        item.as_str(),
                        Ghost(successes(name, insts, outcomes@, i as int)),
                    );
                    ndone = ndone + 1;
                },
                Err(e) => {
                    push_part(&mut errs, nerr, ", ", e.as_str(), Ghost(failures(outcomes@, i as int)));
                    nerr = nerr + 1;
                },
            }
            i = i + 1;
        }
        let log_line = prefixed("deregister instances: ", done.as_str());
        if nerr > 0 {
            DeregisterOutcome {
                log_line,
                result: Err(
                    FacadeError::Registry(prefixed("failed to deregister instances: ", errs.as_str())),
                ),
            }
        } else {
            DeregisterOutcome { log_line, result: Ok(()) }
        }
    }

    /// Concludes a subscription from the transport's answer.
    pub fn subscribe_service(outcome: Result<(), String>) -> (r: Result<(), FacadeError>)
        ensures
            outcome is Ok ==> r is Ok,
            outcome is Err ==> r is Err && r->Err_0 is Subscription && r->Err_0.text()
                == "subscribe_service error: "@ + outcome->Err_0@,
    {
        match outcome {
            Ok(_) => Ok(()),
            Err(e) => Err(FacadeError::Subscription(prefixed("subscribe_service error: ", e.as_str()))),
        }
    }

    /// Concludes the addition of a configuration listener from the
    /// transport's answer.
    pub fn add_config_listener(outcome: Result<(), String>) -> (r: Result<(), FacadeError>)
        ensures
            outcome is Ok ==> r is Ok,
            outcome is Err ==> r is Err && r->Err_0 is Config && r->Err_0.text()
                == "listen config error "@ + outcome->Err_0@,
    {
        match outcome {
            Ok(_) => Ok(()),
            Err(e) => Err(FacadeError::Config(prefixed("listen config error ", e.as_str()))),
        }
    }

    /// Concludes a one-shot fetch of a configuration entry: its content, or
    /// a configuration error.
    pub fn get_config(outcome: Result<ConfigEntry, String>) -> (r: Result<String, FacadeError>)
        ensures
            outcome is Ok ==> r is Ok && r->Ok_0@ == outcome->Ok_0.content@,
            outcome is Err ==> r is Err && r->Err_0 is Config && r->Err_0.text()
                == "failed to get config: "@ + outcome->Err_0@,
    {
        match outcome {
            Ok(entry) => Ok(entry.content),
            Err(e) => Err(FacadeError::Config(prefixed("failed to get config: ", e.as_str()))),
        }
    }
}

} // verus!
