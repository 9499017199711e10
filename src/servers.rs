use vstd::prelude::*;
use crate::text::strs;

verus! {

/// A local server started earlier, as recorded on disk.
#[derive(Clone, Debug)]
pub struct ServerRecord {
    /// The name of the record's directory.
    pub name: String,
    /// The process it was started as, if one was recorded.
    pub pid: Option<u32>,
}

/// A record is unused when no live process stands behind it.
pub open spec fn is_unused(r: ServerRecord, live: Seq<u32>) -> bool {
    match r.pid {
        Some(p) => !live.contains(p),
        None => true,
    }
}

/// The records that stay, in order.
pub open spec fn kept(rs: Seq<ServerRecord>, live: Seq<u32>) -> Seq<ServerRecord>
    decreases rs.len(),
{
    if rs.len() == 0 {
        seq![]
    } else if is_unused(rs.last(), live) {
        kept(rs.drop_last(), live)
    } else {
        kept(rs.drop_last(), live).push(rs.last())
    }
}

/// The names of the records that are deleted, in order.
pub open spec fn unused_names(rs: Seq<ServerRecord>, live: Seq<u32>) -> Seq<Seq<char>>
    decreases rs.len(),
{
    if rs.len() == 0 {
        seq![]
    } else if is_unused(rs.last(), live) {
        unused_names(rs.drop_last(), live).push(rs.last().name@)
    } else {
        unused_names(rs.drop_last(), live)
    }
}

/// The records of the servers started on this machine.
pub struct ServerRecordStore {
    pub records: Vec<ServerRecord>,
}

fn is_live(live: &Vec<u32>, pid: u32) -> (r: bool)
    ensures
        r == live@.contains(pid),
{
    let mut i: usize = 0;
    while i < live.len()
        invariant
            i <= live@.len(),
            forall|j: int| 0 <= j < i ==> live@[j] != pid,
        decreases live@.len() - i,
    {
        if live[i] == pid {
            return true;
        }
        i = i + 1;
    }
    false
}

fn copy_record(r: &ServerRecord) -> (c: ServerRecord)
    ensures
        c == *r,
{
    ServerRecord { name: r.name.clone(), pid: r.pid }
}

impl ServerRecordStore {
    /// Deletes every record without a live process among `live_pids`, keeping
    /// the others in order, and returns the names of the deleted ones.
    pub fn prune(&mut self, live_pids: &Vec<u32>) -> (deleted: Vec<String>)
        ensures
            final(self).records@ == kept(old(self).records@, live_pids@),
            strs(deleted@) == unused_names(old(self).records@, live_pids@),
    {
        let ghost rs = self.records@;
        let mut stay: Vec<ServerRecord> = Vec::new();
        let mut deleted: Vec<String> = Vec::new();
        let mut i: usize = 0;
        while i < self.records.len()
            invariant
                self.records@ == rs,
                i <= rs.len(),
                stay@ == kept(rs.subrange(0, i as int), live_pids@),
                strs(deleted@) == unused_names(rs.subrange(0, i as int), live_pids@),
            decreases rs.len() - i,
        {
            let r = &self.records[i];
            let ghost prefix = rs.subrange(0, i + 1);
            assert(prefix.drop_last() =~= rs.subrange(0, i as int));
            assert(prefix.last() == rs[i as int]);
            let unused = match r.pid {
                Some(p) => !is_live(live_pids, p),
                None => true,
            };
            if unused {
                let ghost before = deleted@;
                let n = r.name.clone();
                deleted.push(n);
                assert(strs(deleted@) =~= strs(before).push(n@));
            } else {
                stay.push(copy_record(r));
            }
            i = i + 1;
        }
        assert(rs.subrange(0, rs.len() as int) =~= rs);
        self.records = stay;
        deleted
    }
}

/// Pruning twice with the same live processes: the second run deletes nothing
/// and keeps every record that the first one kept.
pub proof fn lemma_prune_twice(rs: Seq<ServerRecord>, live: Seq<u32>)
    ensures
        unused_names(kept(rs, live), live).len() == 0,
        kept(kept(rs, live), live) == kept(rs, live),
    decreases rs.len(),
{
    if rs.len() > 0 {
        lemma_prune_twice(rs.drop_last(), live);
        let k = kept(rs.drop_last(), live);
        if !is_unused(rs.last(), live) {
            let k2 = k.push(rs.last());
            assert(k2.drop_last() =~= k);
            assert(k2.last() == rs.last());
        }
    }
}

/// `tunnel prune`: deletes the unused records and returns the names deleted.
pub fn prune(store: &mut ServerRecordStore, live_pids: &Vec<u32>) -> (deleted: Vec<String>)
    ensures
        final(store).records@ == kept(old(store).records@, live_pids@),
        strs(deleted@) == unused_names(old(store).records@, live_pids@),
{
    store.prune(live_pids)
}

} // verus!
