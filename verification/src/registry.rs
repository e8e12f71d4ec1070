//! The process registry: which tunnel is hosted by which process.
//!
//! The registry knows only the host processes that were started through
//! it; it never holds one tunnel twice.

use crate::text::str_is;
use vstd::prelude::*;

verus! {

/// One host process on record.
pub struct HostProcess {
    pub tunnel_id: String,
    pub process_id: u32,
}

/// The table of tracked host processes, by tunnel identifier.
pub struct ProcessRegistry {
    entries: Vec<HostProcess>,
}

/// The table that `entries` spell out, a later entry overriding an earlier
/// one for the same tunnel.
spec fn table_of(entries: Seq<HostProcess>) -> Map<Seq<char>, u32>
    decreases entries.len(),
{
    if entries.len() == 0 {
        Map::empty()
    } else {
        table_of(entries.drop_last()).insert(entries.last().tunnel_id@, entries.last().process_id)
    }
}

/// Whether no two of `entries` are for the same tunnel.
spec fn distinct(entries: Seq<HostProcess>) -> bool {
    forall|i: int, j: int|
        0 <= i < j < entries.len() ==> entries[i].tunnel_id@ != entries[j].tunnel_id@
}

/// Whether one of `entries` is for the tunnel `id`.
spec fn has_entry(entries: Seq<HostProcess>, id: Seq<char>) -> bool {
    exists|i: int| 0 <= i < entries.len() && #[trigger] entries[i].tunnel_id@ == id
}

/// A tunnel is in the table exactly if it has an entry.
proof fn lemma_table_domain(entries: Seq<HostProcess>, id: Seq<char>)
    ensures
        table_of(entries).dom().contains(id) <==> has_entry(entries, id),
    decreases entries.len(),
{
    if entries.len() > 0 {
        let front = entries.drop_last();
        lemma_table_domain(front, id);
        if has_entry(front, id) {
            let i = choose|i: int| 0 <= i < front.len() && #[trigger] front[i].tunnel_id@ == id;
            assert(entries[i].tunnel_id@ == id);
        }
        if has_entry(entries, id) {
            let i = choose|i: int|
                0 <= i < entries.len() && #[trigger] entries[i].tunnel_id@ == id;
            if i < entries.len() - 1 {
                assert(front[i].tunnel_id@ == id);
            }
        }
        if id == entries.last().tunnel_id@ {
            assert(entries[entries.len() - 1].tunnel_id@ == id);
        }
    }
}

/// A tunnel without an entry is not in the table.
proof fn lemma_table_without(entries: Seq<HostProcess>, id: Seq<char>)
    requires
        forall|i: int| 0 <= i < entries.len() ==> entries[i].tunnel_id@ != id,
    ensures
        !table_of(entries).dom().contains(id),
{
    lemma_table_domain(entries, id);
}

/// Among distinct entries, each tunnel has the process of its entry.
proof fn lemma_table_value(entries: Seq<HostProcess>, k: int)
    requires
        distinct(entries),
        0 <= k < entries.len(),
    ensures
        table_of(entries).dom().contains(entries[k].tunnel_id@),
        table_of(entries)[entries[k].tunnel_id@] == entries[k].process_id,
    decreases entries.len(),
{
    if k < entries.len() - 1 {
        let front = entries.drop_last();
        assert(front[k] == entries[k]);
        lemma_table_value(front, k);
    }
}

impl ProcessRegistry {
    #[verifier::type_invariant]
    spec fn no_tunnel_twice(self) -> bool {
        distinct(self.entries@)
    }

    /// The table that the registry holds.
    pub closed spec fn view(&self) -> Map<Seq<char>, u32> {
        table_of(self.entries@)
    }

    /// A registry that tracks nothing.
    pub fn new() -> (r: Self)
        ensures
            r@ == Map::<Seq<char>, u32>::empty(),
    {
        ProcessRegistry { entries: Vec::new() }
    }

    /// The number of tracked processes.
    pub fn len(&self) -> (n: usize)
        ensures
            n == self@.dom().len(),
            self@.dom().finite(),
    {
        proof {
            use_type_invariant(self);
            lemma_table_size(self.entries@);
        }
        self.entries.len()
    }

    /// The process that hosts `tunnel_id`, if one is tracked.
    pub fn get(&self, tunnel_id: &str) -> (pid: Option<u32>)
        ensures
            pid == if self@.dom().contains(tunnel_id@) {
                Some(self@[tunnel_id@])
            } else {
                None
            },
    {
        proof {
            use_type_invariant(self);
        }
        let mut i: usize = 0;
        while i < self.entries.len()
            invariant
                i <= self.entries.len(),
                distinct(self.entries@),
                forall|k: int| 0 <= k < i ==> self.entries@[k].tunnel_id@ != tunnel_id@,
            decreases self.entries.len() - i,
        {
            if str_is(self.entries[i].tunnel_id.as_str(), tunnel_id) {
                proof {
                    lemma_table_value(self.entries@, i as int);
                }
                return Some(self.entries[i].process_id);
            }
            i += 1;
        }
        proof {
            lemma_table_without(self.entries@, tunnel_id@);
        }
        None
    }

    /// Stops tracking `tunnel_id`. A tunnel that was not tracked makes no
    /// difference.
    pub fn remove(&mut self, tunnel_id: &str)
        ensures
            final(self)@ == old(self)@.remove(tunnel_id@),
    {
        proof {
            use_type_invariant(&*self);
        }
        let mut entries: Vec<HostProcess> = Vec::new();
        std::mem::swap(&mut self.entries, &mut entries);
        let ghost before = entries@;
        let mut i: usize = 0;
        while i < entries.len()
            invariant
                i <= entries.len(),
                entries@ == before,
                before == old(self).entries@,
                distinct(before),
                forall|k: int| 0 <= k < i ==> entries@[k].tunnel_id@ != tunnel_id@,
            decreases entries.len() - i,
        {
            if str_is(entries[i].tunnel_id.as_str(), tunnel_id) {
                entries.remove(i);
                proof {
                    lemma_table_remove(before, i as int);
                    assert(distinct(entries@)) by {
                        assert forall|a: int, b: int|
                            0 <= a < b < entries@.len() implies entries@[a].tunnel_id@
                            != entries@[b].tunnel_id@ by {
                            let a0 = if a < i { a } else { a + 1 };
                            let b0 = if b < i { b } else { b + 1 };
                            assert(entries@[a] == before[a0]);
                            assert(entries@[b] == before[b0]);
                        }
                    }
                }
                self.entries = entries;
                return ;
            }
            i += 1;
        }
        proof {
            lemma_table_without(entries@, tunnel_id@);
            assert(old(self)@.remove(tunnel_id@) =~= old(self)@);
        }
        self.entries = entries;
    }

    /// Tracks `process_id` as the host of `tunnel_id`, in place of any
    /// process tracked for it before.
    pub fn insert(&mut self, tunnel_id: String, process_id: u32)
        ensures
            final(self)@ == old(self)@.insert(tunnel_id@, process_id),
    {
        self.remove(tunnel_id.as_str());
        proof {
            use_type_invariant(&*self);
            lemma_table_domain(self.entries@, tunnel_id@);
        }
        let ghost id = tunnel_id@;
        let mut entries: Vec<HostProcess> = Vec::new();
        std::mem::swap(&mut self.entries, &mut entries);
        let ghost before = entries@;
        entries.push(HostProcess { tunnel_id, process_id });
        proof {
            assert(entries@.drop_last() =~= before);
            assert(!has_entry(before, id));
            assert forall|a: int, b: int| 0 <= a < b < entries@.len() implies entries@[a].tunnel_id@
                != entries@[b].tunnel_id@ by {
                if b == before.len() {
                    assert(entries@[a] == before[a]);
                    assert(before[a].tunnel_id@ != id);
                } else {
                    assert(before[a].tunnel_id@ != before[b].tunnel_id@);
                }
            }
            assert(old(self)@.remove(id).insert(id, process_id) =~= old(self)@.insert(
                id,
                process_id,
            ));
        }
        self.entries = entries;
    }

    /// The tracked tunnels: every one of them once, in no particular
    /// order.
    pub fn tunnel_ids(&self) -> (ids: Vec<String>)
        ensures
            ids.len() == self@.dom().len(),
            ids.deep_view().no_duplicates(),
            forall|id: Seq<char>| ids.deep_view().contains(id) <==> self@.dom().contains(id),
    {
        proof {
            use_type_invariant(self);
            lemma_table_size(self.entries@);
        }
        let mut ids: Vec<String> = Vec::new();
        let mut i: usize = 0;
        while i < self.entries.len()
            invariant
                i <= self.entries.len(),
                ids.len() == i,
                forall|k: int| 0 <= k < i ==> #[trigger] ids@[k]@ == self.entries@[k].tunnel_id@,
            decreases self.entries.len() - i,
        {
            ids.push(self.entries[i].tunnel_id.clone());
            i += 1;
        }
        proof {
            let d = ids.deep_view();
            assert forall|k: int| 0 <= k < d.len() implies #[trigger] d[k]
                == self.entries@[k].tunnel_id@ by {
                assert(ids@[k]@ == self.entries@[k].tunnel_id@);
            }
            assert forall|a: int, b: int| 0 <= a < d.len() && 0 <= b < d.len() && a != b implies d[a]
                != d[b] by {
                if a < b {
                    assert(self.entries@[a].tunnel_id@ != self.entries@[b].tunnel_id@);
                } else {
                    assert(self.entries@[b].tunnel_id@ != self.entries@[a].tunnel_id@);
                }
            }
            assert forall|id: Seq<char>| d.contains(id) <==> self@.dom().contains(id) by {
                lemma_table_domain(self.entries@, id);
                if d.contains(id) {
                    let k = choose|k: int| 0 <= k < d.len() && d[k] == id;
                    assert(self.entries@[k].tunnel_id@ == id);
                }
                if has_entry(self.entries@, id) {
                    let k = choose|k: int|
                        0 <= k < self.entries@.len() && #[trigger] self.entries@[k].tunnel_id@
                            == id;
                    assert(d[k] == id);
                }
            }
        }
        ids
    }
}

/// Distinct entries make a table of as many tunnels.
proof fn lemma_table_size(entries: Seq<HostProcess>)
    requires
        distinct(entries),
    ensures
        table_of(entries).dom().finite(),
        table_of(entries).dom().len() == entries.len(),
    decreases entries.len(),
{
    if entries.len() > 0 {
        let front = entries.drop_last();
        assert forall|i: int, j: int| 0 <= i < j < front.len() implies front[i].tunnel_id@
            != front[j].tunnel_id@ by {
            assert(front[i] == entries[i]);
            assert(front[j] == entries[j]);
        }
        lemma_table_size(front);
        lemma_table_domain(front, entries.last().tunnel_id@);
        assert(!table_of(front).dom().contains(entries.last().tunnel_id@)) by {
            if has_entry(front, entries.last().tunnel_id@) {
                let i = choose|i: int|
                    0 <= i < front.len() && #[trigger] front[i].tunnel_id@
                        == entries.last().tunnel_id@;
                assert(front[i] == entries[i]);
                assert(entries[i].tunnel_id@ != entries[entries.len() - 1].tunnel_id@);
            }
        }
    }
}

/// Taking an entry out of distinct entries takes its tunnel out of the
/// table.
proof fn lemma_table_remove(entries: Seq<HostProcess>, k: int)
    requires
        distinct(entries),
        0 <= k < entries.len(),
    ensures
        table_of(entries.remove(k)) == table_of(entries).remove(entries[k].tunnel_id@),
    decreases entries.len(),
{
    let id = entries[k].tunnel_id@;
    let front = entries.drop_last();
    assert forall|i: int, j: int| 0 <= i < j < front.len() implies front[i].tunnel_id@
        != front[j].tunnel_id@ by {
        assert(front[i] == entries[i]);
        assert(front[j] == entries[j]);
    }
    if k == entries.len() - 1 {
        assert(entries.remove(k) =~= front);
        assert forall|i: int| 0 <= i < front.len() implies front[i].tunnel_id@ != id by {
            assert(front[i] == entries[i]);
        }
        lemma_table_without(front, id);
        assert(table_of(entries).remove(id) =~= table_of(front));
    } else {
        lemma_table_remove(front, k);
        assert(front[k] == entries[k]);
        assert(entries.remove(k).drop_last() =~= front.remove(k));
        assert(entries.remove(k).last() == entries.last());
        assert(entries.last().tunnel_id@ != id);
        assert(table_of(entries.remove(k)) =~= table_of(entries).remove(id));
    }
}

} // verus!
