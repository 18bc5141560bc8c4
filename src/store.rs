use vstd::prelude::*;
use crate::table::Table;
use crate::validate::{Value, VarDetail};

verus! {

/// A parameterless action a device supports, with its description.
#[derive(Debug, Clone)]
pub struct InstCmd {
    pub id: String,
    pub desc: String,
}

impl InstCmd {
    pub fn duplicate(&self) -> (r: InstCmd)
        ensures
            r == *self,
    {
        InstCmd { id: self.id.clone(), desc: self.desc.clone() }
    }
}

pub fn copy_commands(cmds: &Vec<InstCmd>) -> (r: Vec<InstCmd>)
    ensures
        r@ == cmds@,
{
    let mut out: Vec<InstCmd> = Vec::new();
    let mut i: usize = 0;
    while i < cmds.len()
        invariant
            i <= cmds@.len(),
            out@ == cmds@.take(i as int),
        decreases cmds@.len() - i,
    {
        out.push(cmds[i].duplicate());
        i = i + 1;
        assert(out@ =~= cmds@.take(i as int));
    }
    assert(cmds@.take(cmds@.len() as int) =~= cmds@);
    out
}

pub open spec fn ids_of(cmds: Seq<InstCmd>) -> Seq<Seq<char>> {
    cmds.map_values(|c: InstCmd| c.id@)
}

pub open spec fn names_of(ids: Seq<String>) -> Seq<Seq<char>> {
    ids.map_values(|s: String| s@)
}

/// The description pool after upserting each command's description in order.
pub open spec fn with_descriptions(pool: Map<Seq<char>, String>, cmds: Seq<InstCmd>) -> Map<Seq<char>, String>
    decreases cmds.len(),
{
    if cmds.len() == 0 {
        pool
    } else {
        with_descriptions(pool, cmds.drop_last()).insert(cmds.last().id@, cmds.last().desc)
    }
}

/// One monitored device.
pub struct DeviceEntry {
    pub name: String,
    /// Last known value of each variable.
    pub variables: Table<Value>,
    /// Write contract of each writable variable.
    pub rw_variables: Table<VarDetail>,
    /// Ids of the commands the device is known to support.
    pub commands: Vec<String>,
}

impl DeviceEntry {
    pub open spec fn wf(&self) -> bool {
        self.variables.wf() && self.rw_variables.wf()
    }

    pub fn new(name: String) -> (d: DeviceEntry)
        ensures
            d.wf(),
            d.name == name,
            d.variables.view() == Map::<Seq<char>, Value>::empty(),
            d.rw_variables.view() == Map::<Seq<char>, VarDetail>::empty(),
            d.commands@.len() == 0,
    {
        DeviceEntry { name, variables: Table::new(), rw_variables: Table::new(), commands: Vec::new() }
    }

    pub fn has_command(&self, id: &str) -> (r: bool)
        ensures
            r == names_of(self.commands@).contains(id@),
    {
        let mut i: usize = 0;
        while i < self.commands.len()
            invariant
                i <= self.commands@.len(),
                forall|j: int| 0 <= j < i ==> names_of(self.commands@)[j] != id@,
            decreases self.commands@.len() - i,
        {
            if crate::table::same_text(self.commands[i].as_str(), id) {
                assert(names_of(self.commands@)[i as int] == id@);
                return true;
            }
            i = i + 1;
        }
        assert(!names_of(self.commands@).contains(id@)) by {
            if names_of(self.commands@).contains(id@) {
                let k = choose|k: int| 0 <= k < self.commands@.len() && names_of(self.commands@)[k] == id@;
                assert(names_of(self.commands@)[k] != id@);
            }
        }
        false
    }
}

/// A device's command list as last fetched, with the monotonic time of the fetch.
pub struct CommandsCacheEntry {
    pub fetched_at: u64,
    pub commands: Vec<InstCmd>,
}

/// An entry fetched at `fetched_at` is stale at `now` once it is `ttl` old.
pub open spec fn is_stale(fetched_at: u64, now: u64, ttl: u64) -> bool {
    now - fetched_at >= ttl
}

/// What a read of the command cache returns: the cached list and whether it is stale.
pub open spec fn commands_read(cache: Map<Seq<char>, CommandsCacheEntry>, device: Seq<char>, now: u64, ttl: u64) -> (Seq<InstCmd>, bool) {
    if cache.contains_key(device) {
        (cache[device].commands@, is_stale(cache[device].fetched_at, now, ttl))
    } else {
        (Seq::empty(), true)
    }
}

/// The device registry, the command cache and the description pool, held together.
pub struct DeviceStore {
    pub devices: Table<DeviceEntry>,
    pub commands_cache: Table<CommandsCacheEntry>,
    pub shared_desc: Table<String>,
}

/// `after` is `before` once the command list `cmds` of `device` was fetched at `now`:
/// the cache entry replaced, the device's command ids exactly those of `cmds`, and
/// every description upserted in order.
pub open spec fn refreshed(before: DeviceStore, after: DeviceStore, device: Seq<char>, cmds: Seq<InstCmd>, now: u64) -> bool {
    &&& after.commands_cache.view().contains_key(device)
    &&& after.commands_cache.view()[device].fetched_at == now
    &&& after.commands_cache.view()[device].commands@ == cmds
    &&& after.commands_cache.view().remove(device) == before.commands_cache.view().remove(device)
    &&& after.devices.view().dom() == before.devices.view().dom()
    &&& after.devices.view().remove(device) == before.devices.view().remove(device)
    &&& before.devices.view().contains_key(device) ==> {
        let old_entry = before.devices.view()[device];
        let new_entry = after.devices.view()[device];
        &&& names_of(new_entry.commands@) == ids_of(cmds)
        &&& new_entry.name == old_entry.name
        &&& new_entry.variables == old_entry.variables
        &&& new_entry.rw_variables == old_entry.rw_variables
    }
    &&& after.shared_desc.view() == with_descriptions(before.shared_desc.view(), cmds)
}

impl DeviceStore {
    pub open spec fn wf(&self) -> bool {
        &&& self.devices.wf()
        &&& self.commands_cache.wf()
        &&& self.shared_desc.wf()
        &&& forall|k: Seq<char>| #[trigger] self.devices.view().contains_key(k) ==> self.devices.view()[k].wf()
    }

    pub fn new() -> (s: DeviceStore)
        ensures
            s.wf(),
            s.devices.view() == Map::<Seq<char>, DeviceEntry>::empty(),
            s.commands_cache.view() == Map::<Seq<char>, CommandsCacheEntry>::empty(),
            s.shared_desc.view() == Map::<Seq<char>, String>::empty(),
    {
        DeviceStore { devices: Table::new(), commands_cache: Table::new(), shared_desc: Table::new() }
    }

    /// Registers a discovered device, replacing any entry of the same name.
    pub fn add_device(&mut self, device: DeviceEntry)
        requires
            old(self).wf(),
            device.wf(),
        ensures
            final(self).wf(),
            final(self).devices.view() == old(self).devices.view().insert(device.name@, device),
            final(self).commands_cache == old(self).commands_cache,
            final(self).shared_desc == old(self).shared_desc,
    {
        let name = device.name.clone();
        self.devices.insert(name, device);
    }

    pub fn lookup_device(&self, name: &str) -> (r: Option<&DeviceEntry>)
        requires
            self.wf(),
        ensures
            match r {
                Some(d) => self.devices.view().contains_key(name@) && self.devices.view()[name@] == *d,
                None => !self.devices.view().contains_key(name@),
            },
    {
        self.devices.get(name)
    }

    /// The cached command list of `device` and whether it is stale at `now`; an empty,
    /// stale list when nothing was cached. Never contacts the daemon.
    pub fn read_commands(&self, device: &str, now: u64, ttl: u64) -> (r: (Vec<InstCmd>, bool))
        requires
            self.wf(),
        ensures
            (r.0@, r.1) == commands_read(self.commands_cache.view(), device@, now, ttl),
    {
        match self.commands_cache.get(device) {
            Some(entry) => {
                let stale = now >= entry.fetched_at && now - entry.fetched_at >= ttl;
                (copy_commands(&entry.commands), stale)
            },
            None => (Vec::new(), true),
        }
    }

    pub fn description(&self, key: &str) -> (r: Option<&String>)
        requires
            self.wf(),
        ensures
            match r {
                Some(d) => self.shared_desc.view().contains_key(key@) && self.shared_desc.view()[key@] == *d,
                None => !self.shared_desc.view().contains_key(key@),
            },
    {
        self.shared_desc.get(key)
    }

    /// Sets the description of `key`, overwriting an earlier one; nothing is ever removed.
    pub fn upsert_description(&mut self, key: String, desc: String)
        requires
            old(self).wf(),
        ensures
            final(self).wf(),
            final(self).shared_desc.view() == old(self).shared_desc.view().insert(key@, desc),
            final(self).devices == old(self).devices,
            final(self).commands_cache == old(self).commands_cache,
    {
        self.shared_desc.insert(key, desc);
    }

    /// Stores a freshly fetched command list of `device`: a new cache entry stamped `now`,
    /// the device's command ids replaced by exactly the fetched ones, and every
    /// description upserted.
    pub fn apply_refresh(&mut self, device: &str, cmds: &Vec<InstCmd>, now: u64)
        requires
            old(self).wf(),
        ensures
            final(self).wf(),
            refreshed(*old(self), *final(self), device@, cmds@, now),
    {
        let entry = CommandsCacheEntry { fetched_at: now, commands: copy_commands(cmds) };
        self.commands_cache.insert(device.to_owned(), entry);
        proof {
            assert(self.commands_cache.view().remove(device@) =~= old(self).commands_cache.view().remove(device@));
        }

        let mut ids: Vec<String> = Vec::new();
        let mut i: usize = 0;
        while i < cmds.len()
            invariant
                self.wf(),
                i <= cmds@.len(),
                ids@.len() == i,
                names_of(ids@) == ids_of(cmds@.take(i as int)),
                self.shared_desc.view() == with_descriptions(old(self).shared_desc.view(), cmds@.take(i as int)),
                self.devices == old(self).devices,
                self.commands_cache.view().contains_key(device@),
                self.commands_cache.view()[device@].fetched_at == now,
                self.commands_cache.view()[device@].commands@ == cmds@,
                self.commands_cache.view().remove(device@) == old(self).commands_cache.view().remove(device@),
            decreases cmds@.len() - i,
        {
            let ghost pre = cmds@.take(i as int);
            let ghost old_ids = ids@;
            let c = &cmds[i];
            ids.push(c.id.clone());
            self.shared_desc.insert(c.id.clone(), c.desc.clone());
            i = i + 1;
            proof {
                assert(cmds@.take(i as int).drop_last() == pre);
                assert forall|j: int| 0 <= j < i implies names_of(ids@)[j] == ids_of(cmds@.take(i as int))[j] by {
                    if j < i - 1 {
                        assert(ids@[j] == old_ids[j]);
                        assert(names_of(old_ids)[j] == ids_of(pre)[j]);
                    }
                }
                assert(names_of(ids@) =~= ids_of(cmds@.take(i as int)));
            }
        }
        assert(cmds@.take(cmds@.len() as int) == cmds@);

        match self.devices.find(device) {
            Some(k) => {
                let ghost before = self.devices.vals@[k as int];
                proof {
                    assert(self.devices.view()[device@] == before);
                }
                self.devices.vals[k].commands = ids;
                let ghost after = self.devices.vals@[k as int];
                proof {
                    assert(self.devices.vals@ == old(self).devices.vals@.update(k as int, after));
                    crate::table::lemma_update(old(self).devices.keys@, old(self).devices.vals@, k as int, after);
                    assert(self.devices.view() == old(self).devices.view().insert(device@, after));
                    assert(self.devices.view().remove(device@) =~= old(self).devices.view().remove(device@));
                    assert(self.devices.view().dom() =~= old(self).devices.view().dom());
                    assert forall|n: Seq<char>| #[trigger] self.devices.view().contains_key(n) implies self.devices.view()[n].wf() by {
                        if n != device@ {
                            assert(old(self).devices.view().contains_key(n));
                        }
                    }
                }
            },
            None => {
                proof {
                    assert(self.devices.view().remove(device@) =~= old(self).devices.view().remove(device@));
                }
            },
        }
    }
}

} // verus!
