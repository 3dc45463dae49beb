//! The shared tables and the protocol that configures them.

use crate::table::{lookup, FixedTable};
use vstd::prelude::*;

verus! {

/// Capacity of the table that names the process in scope.
pub const TARGET_PID_CAPACITY: u32 = 1;

/// Capacity of the table that names the watched descriptors.
pub const TARGET_FDS_CAPACITY: u32 = 1024;

/// The value stored under every key: only a key's presence carries meaning.
pub const PLACEHOLDER: u32 = 0;

/// Why a configuration was refused.
#[derive(Clone, Copy, Debug, PartialEq, Eq, Structural)]
pub enum ConfigError {
    /// More descriptors were asked for than the descriptor table can hold.
    TooManyDescriptors,
}

/// The process table once `pid` is the target: that one key and no other.
pub open spec fn target_map(pid: u32) -> Map<u32, u32> {
    Map::<u32, u32>::empty().insert(pid, PLACEHOLDER)
}

/// The descriptor table once `fds` is the watch-list: exactly the listed
/// descriptors are keys.
pub open spec fn watch_map(fds: Seq<u32>) -> Map<u32, u32> {
    Map::new(|fd: u32| fds.contains(fd), |fd: u32| PLACEHOLDER)
}

/// Listing one more descriptor adds that key to the descriptor table.
pub proof fn lemma_watch_map_push(fds: Seq<u32>, fd: u32)
    ensures
        watch_map(fds.push(fd)) == watch_map(fds).insert(fd, PLACEHOLDER),
{
    let longer = fds.push(fd);
    assert forall|x: u32| longer.contains(x) <==> (fds.contains(x) || x == fd) by {
        if longer.contains(x) {
            let j = choose|j: int| 0 <= j < longer.len() && longer[j] == x;
            if j < fds.len() {
                assert(fds[j] == x);
            }
        }
        if fds.contains(x) {
            let j = choose|j: int| 0 <= j < fds.len() && fds[j] == x;
            assert(longer[j] == x);
        }
        if x == fd {
            assert(longer[fds.len() as int] == x);
        }
    }
    assert(watch_map(longer) =~= watch_map(fds).insert(fd, PLACEHOLDER));
}

/// The two lookup tables that the controller writes and the probe reads:
/// the process in scope and the descriptors watched.
pub struct SharedTables {
    target_pid: FixedTable,
    target_fds: FixedTable,
}

impl SharedTables {
    /// Contents of the process table.
    pub closed spec fn processes(&self) -> Map<u32, u32> {
        self.target_pid@
    }

    /// Contents of the descriptor table.
    pub closed spec fn descriptors(&self) -> Map<u32, u32> {
        self.target_fds@
    }

    /// Validity: each table is valid and has its fixed capacity.
    pub closed spec fn wf(&self) -> bool {
        &&& self.target_pid.wf()
        &&& self.target_fds.wf()
        &&& self.target_pid.capacity() == TARGET_PID_CAPACITY
        &&& self.target_fds.capacity() == TARGET_FDS_CAPACITY
    }

    /// Neither table ever holds more keys than its capacity: at most one
    /// process is in scope, and at most 1024 descriptors are watched.
    pub proof fn lemma_within_capacity(&self)
        requires
            self.wf(),
        ensures
            self.processes().dom().finite(),
            self.processes().len() <= TARGET_PID_CAPACITY,
            self.descriptors().dom().finite(),
            self.descriptors().len() <= TARGET_FDS_CAPACITY,
    {
    }

    /// Both tables, empty.
    pub fn new() -> (tables: Self)
        ensures
            tables.wf(),
            tables.processes() == Map::<u32, u32>::empty(),
            tables.descriptors() == Map::<u32, u32>::empty(),
    {
        SharedTables {
            target_pid: FixedTable::with_max_entries(TARGET_PID_CAPACITY),
            target_fds: FixedTable::with_max_entries(TARGET_FDS_CAPACITY),
        }
    }

    /// Puts `pid` in scope, in place of any process that was.
    pub fn set_target_process(&mut self, pid: u32)
        requires
            old(self).wf(),
        ensures
            final(self).wf(),
            final(self).processes() == target_map(pid),
            final(self).descriptors() == old(self).descriptors(),
    {
        self.target_pid.clear();
        let _ = self.target_pid.insert(pid, PLACEHOLDER);
    }

    /// Adds `fd` to the watched descriptors. A descriptor already watched
    /// stays watched; a new one needs a free slot.
    pub fn add_target_descriptor(&mut self, fd: u32) -> (result: Result<(), ConfigError>)
        requires
            old(self).wf(),
        ensures
            final(self).wf(),
            final(self).processes() == old(self).processes(),
            result is Ok <==> {
                ||| old(self).descriptors().contains_key(fd)
                ||| old(self).descriptors().len() < TARGET_FDS_CAPACITY
            },
            result is Ok ==> final(self).descriptors() == old(self).descriptors().insert(
                fd,
                PLACEHOLDER,
            ),
            result is Err ==> final(self).descriptors() == old(self).descriptors(),
            result matches Err(e) ==> e == ConfigError::TooManyDescriptors,
    {
        match self.target_fds.insert(fd, PLACEHOLDER) {
            Ok(()) => Ok(()),
            Err(_) => Err(ConfigError::TooManyDescriptors),
        }
    }

    /// Writes target `pid` and watch-list `fds` into empty tables: the
    /// process first, then the descriptors in the order listed.
    pub(crate) fn populate(&mut self, pid: u32, fds: &[u32])
        requires
            old(self).wf(),
            old(self).descriptors() == Map::<u32, u32>::empty(),
            fds@.len() <= TARGET_FDS_CAPACITY,
        ensures
            final(self).wf(),
            final(self).processes() == target_map(pid),
            final(self).descriptors() == watch_map(fds@),
    {
        self.set_target_process(pid);
        assert(watch_map(fds@.take(0)) =~= Map::<u32, u32>::empty());
        let mut i: usize = 0;
        while i < fds.len()
            invariant
                i <= fds.len() <= TARGET_FDS_CAPACITY,
                self.wf(),
                self.processes() == target_map(pid),
                self.descriptors() == watch_map(fds@.take(i as int)),
                self.descriptors().len() <= i,
            decreases fds.len() - i,
        {
            proof {
                self.lemma_within_capacity();
                lemma_watch_map_push(fds@.take(i as int), fds@[i as int]);
                assert(fds@.take(i as int).push(fds@[i as int]) =~= fds@.take(i + 1));
            }
            let _ = self.add_target_descriptor(fds[i]);
            i += 1;
        }
        assert(fds@.take(fds@.len() as int) =~= fds@);
    }

    /// The tables for target `pid` and watch-list `fds`. A list longer than
    /// the descriptor table's capacity is refused before anything is written.
    pub fn configured(pid: u32, fds: &[u32]) -> (result: Result<SharedTables, ConfigError>)
        ensures
            result is Err <==> fds@.len() > TARGET_FDS_CAPACITY,
            result matches Err(e) ==> e == ConfigError::TooManyDescriptors,
            result matches Ok(tables) ==> {
                &&& tables.wf()
                &&& tables.processes() == target_map(pid)
                &&& tables.descriptors() == watch_map(fds@)
            },
    {
        if fds.len() > TARGET_FDS_CAPACITY as usize {
            return Err(ConfigError::TooManyDescriptors);
        }
        let mut tables = SharedTables::new();
        tables.populate(pid, fds);
        Ok(tables)
    }

    /// What the process table holds under `pid`.
    pub fn lookup_process(&self, pid: u32) -> (value: Option<u32>)
        ensures
            value == lookup(self.processes(), pid),
    {
        self.target_pid.get(pid)
    }

    /// What the descriptor table holds under `fd`.
    pub fn lookup_descriptor(&self, fd: u32) -> (value: Option<u32>)
        ensures
            value == lookup(self.descriptors(), fd),
    {
        self.target_fds.get(fd)
    }

    /// Whether `pid` is in scope.
    pub fn is_target_process(&self, pid: u32) -> (found: bool)
        ensures
            found == self.processes().contains_key(pid),
    {
        self.target_pid.contains_key(pid)
    }

    /// Whether `fd` is watched.
    pub fn is_target_descriptor(&self, fd: u32) -> (found: bool)
        ensures
            found == self.descriptors().contains_key(fd),
    {
        self.target_fds.contains_key(fd)
    }
}

} // verus!
