use vstd::prelude::*;
use vstd::string::StringExecFns;
use crate::problem::{
    device_not_found, device_not_found_problem, missing_auth, missing_auth_problem, translate_error,
    translated, DaemonError, ProblemDetail, ProblemView, STATUS_BAD_REQUEST,
};
use crate::store::{commands_read, copy_commands, names_of, refreshed, DeviceStore, InstCmd};
use crate::validate::{check_value, rejection, rejection_problem, validate_value, Value, ValueView};

verus! {

/// Body of an instant-command request.
pub struct CommandRequest {
    pub instcmd: String,
}

/// Body of a variable-write request.
pub struct RwRequest {
    pub variable: String,
    pub value: Value,
}

/// Query of a device-details request.
pub struct GetUpsQuery {
    pub extra: Option<String>,
}

/// A device-details request asks for a fresh command list when its extra part names the commands.
pub fn wants_commands(query: &GetUpsQuery) -> (r: bool)
    ensures
        r == (query.extra is Some && query.extra->Some_0@ == "commands"@),
{
    match &query.extra {
        Some(s) => crate::table::same_text(s.as_str(), "commands"),
        None => false,
    }
}

/// Where the daemon is and how to log in; without a user and a password nothing
/// that talks to the daemon is allowed.
pub struct UpsdConfig {
    pub addr: String,
    pub user: Option<String>,
    pub pass: Option<String>,
}

/// What a protocol client session is opened with.
pub struct Credentials {
    pub addr: String,
    pub user: String,
    pub pass: String,
}

pub open spec fn has_credentials(cfg: UpsdConfig) -> bool {
    cfg.user is Some && cfg.pass is Some
}

pub open spec fn credentials_of(cfg: UpsdConfig, c: Credentials) -> bool {
    &&& has_credentials(cfg)
    &&& c.addr@ == cfg.addr@
    &&& c.user@ == cfg.user->Some_0@
    &&& c.pass@ == cfg.pass->Some_0@
}

/// The credentials of a daemon-facing operation, or the configuration error when
/// the user or the password is missing.
pub fn require_auth_config(cfg: &UpsdConfig) -> (r: Result<Credentials, ProblemDetail>)
    ensures
        match r {
            Ok(c) => credentials_of(*cfg, c),
            Err(p) => !has_credentials(*cfg) && p@ == missing_auth_problem(),
        },
{
    match (&cfg.user, &cfg.pass) {
        (Some(user), Some(pass)) => Ok(
            Credentials { addr: cfg.addr.clone(), user: user.clone(), pass: pass.clone() },
        ),
        _ => Err(missing_auth()),
    }
}

/// What to do for a request of a device's command list.
pub enum CommandsPlan {
    /// The cache is fresh: answer with this list, no daemon round trip.
    Cached(Vec<InstCmd>),
    /// Fetch the list from the daemon with these credentials, then `update_commands`.
    Fetch(Credentials),
    /// A refresh is needed but cannot be made.
    Fail(ProblemDetail),
}

pub enum PlanView {
    Cached(Seq<InstCmd>),
    Fetch,
    Fail(ProblemView),
}

pub open spec fn plan_view(p: CommandsPlan) -> PlanView {
    match p {
        CommandsPlan::Cached(c) => PlanView::Cached(c@),
        CommandsPlan::Fetch(_) => PlanView::Fetch,
        CommandsPlan::Fail(e) => PlanView::Fail(e@),
    }
}

/// The cache serves unless the caller forces a refresh or the entry is stale; a
/// refresh needs credentials.
pub open spec fn planned(store: DeviceStore, cfg: UpsdConfig, device: Seq<char>, force: bool, now: u64, ttl: u64) -> PlanView {
    let (cached, stale) = commands_read(store.commands_cache.view(), device, now, ttl);
    if !force && !stale {
        PlanView::Cached(cached)
    } else if has_credentials(cfg) {
        PlanView::Fetch
    } else {
        PlanView::Fail(missing_auth_problem())
    }
}

pub fn plan_commands(
    store: &DeviceStore,
    cfg: &UpsdConfig,
    device: &str,
    force: bool,
    now: u64,
    ttl: u64,
) -> (r: CommandsPlan)
    requires
        store.wf(),
    ensures
        plan_view(r) == planned(*store, *cfg, device@, force, now, ttl),
        r matches CommandsPlan::Fetch(c) ==> credentials_of(*cfg, c),
{
    if !force {
        let (cached, stale) = store.read_commands(device, now, ttl);
        if !stale {
            return CommandsPlan::Cached(cached);
        }
    }
    match require_auth_config(cfg) {
        Ok(c) => CommandsPlan::Fetch(c),
        Err(p) => CommandsPlan::Fail(p),
    }
}

/// The cached command list of `device` and whether it is stale at `now`.
pub fn get_cached_commands(store: &DeviceStore, device: &str, now: u64, ttl: u64) -> (r: (Vec<InstCmd>, bool))
    requires
        store.wf(),
    ensures
        (r.0@, r.1) == commands_read(store.commands_cache.view(), device@, now, ttl),
{
    store.read_commands(device, now, ttl)
}

/// Takes in what the daemon answered to a command-list request made at `now`: a list
/// is stored and returned; a failure is translated and leaves the store untouched.
pub fn update_commands(
    store: &mut DeviceStore,
    device: &str,
    fetched: Result<Vec<InstCmd>, DaemonError>,
    now: u64,
) -> (r: Result<Vec<InstCmd>, ProblemDetail>)
    requires
        old(store).wf(),
    ensures
        final(store).wf(),
        match fetched {
            Ok(cmds) => r matches Ok(c) && c@ == cmds@ && refreshed(*old(store), *final(store), device@, cmds@, now),
            Err(e) => r matches Err(p) && p@ == translated(e) && *final(store) == *old(store),
        },
{
    match fetched {
        Ok(cmds) => {
            store.apply_refresh(device, &cmds, now);
            Ok(cmds)
        },
        Err(e) => Err(translate_error(e)),
    }
}

/// Outcome of a daemon call that returns nothing: failures go through the one mapping.
pub fn finish_daemon_call(result: Result<(), DaemonError>) -> (r: Result<(), ProblemDetail>)
    ensures
        match result {
            Ok(()) => r is Ok,
            Err(e) => r matches Err(p) && p@ == translated(e),
        },
{
    match result {
        Ok(()) => Ok(()),
        Err(e) => Err(translate_error(e)),
    }
}

pub open spec fn outcome(r: Result<Credentials, ProblemDetail>) -> Result<(), ProblemView> {
    match r {
        Ok(_) => Ok(()),
        Err(p) => Err(p@),
    }
}

pub open spec fn device_checked(store: DeviceStore, cfg: UpsdConfig, device: Seq<char>) -> Result<(), ProblemView> {
    if !has_credentials(cfg) {
        Err(missing_auth_problem())
    } else if !store.devices.view().contains_key(device) {
        Err(device_not_found_problem())
    } else {
        Ok(())
    }
}

pub open spec fn invalid_instcmd_problem(cmd: Seq<char>) -> ProblemView {
    (
        "Invalid INSTCMD"@,
        STATUS_BAD_REQUEST,
        Some("'"@ + cmd + "' is not listed as supported command on device details."@),
    )
}

/// The checks an instant command passes before the daemon is called.
pub open spec fn instcmd_checked(store: DeviceStore, cfg: UpsdConfig, device: Seq<char>, cmd: Seq<char>) -> Result<(), ProblemView> {
    match device_checked(store, cfg, device) {
        Err(p) => Err(p),
        Ok(()) => if names_of(store.devices.view()[device].commands@).contains(cmd) {
            Ok(())
        } else {
            Err(invalid_instcmd_problem(cmd))
        },
    }
}

pub open spec fn invalid_rw_problem(variable: Seq<char>) -> ProblemView {
    (
        "Invalid RW variable"@,
        STATUS_BAD_REQUEST,
        Some("'"@ + variable + "' is not a valid writeable variable."@),
    )
}

/// The verdict on writing `value` to `variable` of `device`, before any daemon call.
pub open spec fn write_checked(store: DeviceStore, device: Seq<char>, variable: Seq<char>, value: ValueView) -> Result<(), ProblemView> {
    if !store.devices.view().contains_key(device) {
        Err(device_not_found_problem())
    } else {
        let rw = store.devices.view()[device].rw_variables.view();
        if !rw.contains_key(variable) {
            Err(invalid_rw_problem(variable))
        } else {
            match check_value(rw[variable], value) {
                Ok(()) => Ok(()),
                Err(k) => Err(rejection_problem(variable, rw[variable], k)),
            }
        }
    }
}

pub open spec fn set_var_checked(store: DeviceStore, cfg: UpsdConfig, device: Seq<char>, variable: Seq<char>, value: ValueView) -> Result<(), ProblemView> {
    if !has_credentials(cfg) {
        Err(missing_auth_problem())
    } else {
        write_checked(store, device, variable, value)
    }
}

/// Validates a variable write against the device's declared write contract.
pub fn validate_write(store: &DeviceStore, device: &str, variable: &str, value: &Value) -> (r: Result<(), ProblemDetail>)
    requires
        store.wf(),
    ensures
        match r {
            Ok(()) => write_checked(*store, device@, variable@, value@) is Ok,
            Err(p) => write_checked(*store, device@, variable@, value@) == Err::<(), ProblemView>(p@),
        },
{
    match store.lookup_device(device) {
        None => Err(device_not_found()),
        Some(entry) => match entry.rw_variables.get(variable) {
            None => {
                let mut d = String::from_str("'");
                d.append(variable);
                d.append("' is not a valid writeable variable.");
                Err(ProblemDetail::new("Invalid RW variable", STATUS_BAD_REQUEST).with_detail(d))
            },
            Some(detail) => match validate_value(detail, value) {
                Ok(()) => Ok(()),
                Err(k) => Err(rejection(variable, detail, k)),
            },
        },
    }
}

/// Checks made before an instant command is sent: credentials, the device, and that
/// the device lists the command.
pub fn prepare_instcmd(store: &DeviceStore, cfg: &UpsdConfig, device: &str, cmd: &str) -> (r: Result<Credentials, ProblemDetail>)
    requires
        store.wf(),
    ensures
        outcome(r) == instcmd_checked(*store, *cfg, device@, cmd@),
        r matches Ok(c) ==> credentials_of(*cfg, c),
{
    let creds = require_auth_config(cfg)?;
    match store.lookup_device(device) {
        None => Err(device_not_found()),
        Some(entry) => if entry.has_command(cmd) {
            Ok(creds)
        } else {
            let mut d = String::from_str("'");
            d.append(cmd);
            d.append("' is not listed as supported command on device details.");
            Err(ProblemDetail::new("Invalid INSTCMD", STATUS_BAD_REQUEST).with_detail(d))
        },
    }
}

/// Checks made before a forced shutdown is sent: credentials and the device.
pub fn prepare_fsd(store: &DeviceStore, cfg: &UpsdConfig, device: &str) -> (r: Result<Credentials, ProblemDetail>)
    requires
        store.wf(),
    ensures
        outcome(r) == device_checked(*store, *cfg, device@),
        r matches Ok(c) ==> credentials_of(*cfg, c),
{
    let creds = require_auth_config(cfg)?;
    match store.lookup_device(device) {
        None => Err(device_not_found()),
        Some(_) => Ok(creds),
    }
}

/// Checks made before a variable write is sent: credentials, then the validator.
pub fn prepare_set_var(
    store: &DeviceStore,
    cfg: &UpsdConfig,
    device: &str,
    variable: &str,
    value: &Value,
) -> (r: Result<Credentials, ProblemDetail>)
    requires
        store.wf(),
    ensures
        outcome(r) == set_var_checked(*store, *cfg, device@, variable@, value@),
        r matches Ok(c) ==> credentials_of(*cfg, c),
{
    let creds = require_auth_config(cfg)?;
    match validate_write(store, device, variable, value) {
        Ok(()) => Ok(creds),
        Err(p) => Err(p),
    }
}

} // verus!
