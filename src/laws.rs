use vstd::prelude::*;
use crate::dispatch::{
    device_checked, has_credentials, instcmd_checked, planned, set_var_checked, PlanView, UpsdConfig,
};
use crate::problem::{missing_auth_problem, translated, DaemonError, ErrorKind, ProblemView, STATUS_UNAUTHORIZED};
use crate::store::{commands_read, ids_of, names_of, refreshed, with_descriptions, CommandsCacheEntry, DeviceStore, InstCmd};
use crate::validate::ValueView;

verus! {

/// A device whose commands were never fetched reads as an empty, stale list.
pub proof fn never_refreshed_reads_empty(cache: Map<Seq<char>, CommandsCacheEntry>, device: Seq<char>, now: u64, ttl: u64)
    requires
        !cache.contains_key(device),
    ensures
        commands_read(cache, device, now, ttl) == (Seq::<InstCmd>::empty(), true),
{
}

/// After a refresh at `at` the fetched list is served, fresh before `at + ttl` and
/// stale from then on.
pub proof fn refreshed_list_is_fresh_for_ttl(
    before: DeviceStore,
    after: DeviceStore,
    device: Seq<char>,
    cmds: Seq<InstCmd>,
    at: u64,
    now: u64,
    ttl: u64,
)
    requires
        refreshed(before, after, device, cmds, at),
    ensures
        now < at + ttl ==> commands_read(after.commands_cache.view(), device, now, ttl) == (cmds, false),
        now >= at + ttl ==> commands_read(after.commands_cache.view(), device, now, ttl) == (cmds, true),
{
}

/// Two refreshes in a row leave the device with exactly the ids of the second one,
/// never a union with the first.
pub proof fn latest_refresh_replaces_ids(
    s0: DeviceStore,
    s1: DeviceStore,
    s2: DeviceStore,
    device: Seq<char>,
    first: Seq<InstCmd>,
    second: Seq<InstCmd>,
    t1: u64,
    t2: u64,
)
    requires
        s0.devices.view().contains_key(device),
        refreshed(s0, s1, device, first, t1),
        refreshed(s1, s2, device, second, t2),
    ensures
        names_of(s2.devices.view()[device].commands@) == ids_of(second),
{
}

/// Description upserts are last-write-wins, and the pool never loses a key.
pub proof fn upsert_last_write_wins(pool: Map<Seq<char>, String>, key: Seq<char>, first: String, second: String)
    ensures
        pool.insert(key, first).insert(key, second)[key] == second,
        pool.dom().subset_of(pool.insert(key, first).dom()),
        pool.insert(key, first).dom().subset_of(pool.insert(key, first).insert(key, second).dom()),
{
}

/// A refresh only adds to the description pool: every key it held stays.
pub proof fn refresh_keeps_descriptions(pool: Map<Seq<char>, String>, cmds: Seq<InstCmd>)
    ensures
        pool.dom().subset_of(with_descriptions(pool, cmds).dom()),
        forall|i: int| 0 <= i < cmds.len() ==> with_descriptions(pool, cmds).contains_key(#[trigger] cmds[i].id@),
    decreases cmds.len(),
{
    if cmds.len() > 0 {
        refresh_keeps_descriptions(pool, cmds.drop_last());
        assert forall|i: int| 0 <= i < cmds.len() implies with_descriptions(pool, cmds).contains_key(
            #[trigger] cmds[i].id@,
        ) by {
            if i < cmds.len() - 1 {
                assert(cmds.drop_last()[i] == cmds[i]);
            }
        }
    }
}

pub open spec fn access_denied_problem() -> ProblemView {
    ("Access denied"@, STATUS_UNAUTHORIZED, None)
}

/// An access-denied failure gives the same problem whatever operation met it: every
/// daemon call site reports failures through `translated`.
pub proof fn access_denied_is_uniform(e: DaemonError)
    requires
        e.kind is AccessDenied,
    ensures
        translated(e) == access_denied_problem(),
{
}

/// Without a user or a password every daemon-facing operation fails with the
/// configuration error before anything else is looked at.
pub proof fn missing_credentials_stop_everything(
    store: DeviceStore,
    cfg: UpsdConfig,
    device: Seq<char>,
    cmd: Seq<char>,
    variable: Seq<char>,
    value: ValueView,
    now: u64,
    ttl: u64,
)
    requires
        !has_credentials(cfg),
    ensures
        planned(store, cfg, device, true, now, ttl) == PlanView::Fail(missing_auth_problem()),
        instcmd_checked(store, cfg, device, cmd) == Err::<(), ProblemView>(missing_auth_problem()),
        device_checked(store, cfg, device) == Err::<(), ProblemView>(missing_auth_problem()),
        set_var_checked(store, cfg, device, variable, value) == Err::<(), ProblemView>(missing_auth_problem()),
{
}

} // verus!
