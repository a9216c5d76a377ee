//! The transfers that wait for the user's decision: each announced transfer
//! id is registered with the channel that carries the decision, before the
//! user is asked; a decision, or the end of the wait, takes the entry away,
//! so that each decision is delivered at most once and no entry outlives
//! its transfer.

use vstd::prelude::*;
use crate::text::same_text;

verus! {

/// How long the receiver waits for the user's decision, in seconds.
pub const DECISION_TIMEOUT_SECS: u64 = 10;

/// One transfer waiting for a decision, with the channel for it.
pub struct PendingEntry<S> {
    pub transfer_id: String,
    pub decision: S,
}

/// Whether some entry has this transfer id.
pub open spec fn has_id<S>(e: Seq<PendingEntry<S>>, id: Seq<char>) -> bool {
    exists|i: int| 0 <= i < e.len() && (#[trigger] e[i]).transfer_id@ == id
}

/// Whether no two entries have the same transfer id.
pub open spec fn ids_unique<S>(e: Seq<PendingEntry<S>>) -> bool {
    forall|i: int, j: int|
        0 <= i < e.len() && 0 <= j < e.len() && i != j ==> (#[trigger] e[i]).transfer_id@ != (
        #[trigger] e[j]).transfer_id@
}

/// The entries as a map from transfer id to decision channel.
pub open spec fn entries_map<S>(e: Seq<PendingEntry<S>>) -> Map<Seq<char>, S> {
    Map::new(
        |id: Seq<char>| has_id(e, id),
        |id: Seq<char>|
            e[choose|i: int| 0 <= i < e.len() && (#[trigger] e[i]).transfer_id@ == id].decision,
    )
}

proof fn lemma_lookup<S>(e: Seq<PendingEntry<S>>, i: int)
    requires
        ids_unique(e),
        0 <= i < e.len(),
    ensures
        entries_map(e).dom().contains(e[i].transfer_id@),
        entries_map(e)[e[i].transfer_id@] == e[i].decision,
{
    let id = e[i].transfer_id@;
    assert(has_id(e, id));
    let j = choose|j: int| 0 <= j < e.len() && (#[trigger] e[j]).transfer_id@ == id;
    assert(j == i);
}

proof fn lemma_no_id<S>(e: Seq<PendingEntry<S>>, id: Seq<char>)
    requires
        !has_id(e, id),
    ensures
        !entries_map(e).dom().contains(id),
{
}

proof fn lemma_map_of_push<S>(kept: Seq<PendingEntry<S>>, entry: PendingEntry<S>)
    requires
        ids_unique(kept),
        !has_id(kept, entry.transfer_id@),
    ensures
        ids_unique(kept.push(entry)),
        entries_map(kept.push(entry)) == entries_map(kept).insert(
            entry.transfer_id@,
            entry.decision,
        ),
{
    let a = kept.push(entry);
    let n = kept.len() as int;
    assert forall|x: int, y: int|
        0 <= x < a.len() && 0 <= y < a.len() && x != y implies (#[trigger] a[x]).transfer_id@ != (
        #[trigger] a[y]).transfer_id@ by {
        if x < n && y < n {
            assert(a[x] == kept[x] && a[y] == kept[y]);
        } else if x < n {
            assert(a[x] == kept[x]);
        } else {
            assert(a[y] == kept[y]);
        }
    }
    let rhs = entries_map(kept).insert(entry.transfer_id@, entry.decision);
    assert forall|k: Seq<char>| #[trigger] entries_map(a).dom().contains(k) == rhs.dom().contains(
        k,
    ) by {
        if has_id(a, k) {
            let j = choose|j: int| 0 <= j < a.len() && (#[trigger] a[j]).transfer_id@ == k;
            if j < n {
                assert(a[j] == kept[j]);
                assert(has_id(kept, k));
            }
        }
        if has_id(kept, k) {
            let j = choose|j: int| 0 <= j < kept.len() && (#[trigger] kept[j]).transfer_id@ == k;
            assert(a[j] == kept[j]);
            assert(has_id(a, k));
        }
        if k == entry.transfer_id@ {
            assert(a[n] == entry);
            assert(has_id(a, k));
        }
    }
    assert forall|k: Seq<char>| entries_map(a).dom().contains(k) implies #[trigger] entries_map(
        a,
    )[k] == rhs[k] by {
        if k == entry.transfer_id@ {
            assert(a[n] == entry);
            lemma_lookup(a, n);
        } else {
            let j = choose|j: int| 0 <= j < a.len() && (#[trigger] a[j]).transfer_id@ == k;
            assert(j != n);
            assert(a[j] == kept[j]);
            lemma_lookup(a, j);
            lemma_lookup(kept, j);
        }
    }
    assert(entries_map(a) =~= rhs);
}

proof fn lemma_map_of_remove<S>(e: Seq<PendingEntry<S>>, i: int)
    requires
        ids_unique(e),
        0 <= i < e.len(),
    ensures
        ids_unique(e.remove(i)),
        !has_id(e.remove(i), e[i].transfer_id@),
        entries_map(e.remove(i)) == entries_map(e).remove(e[i].transfer_id@),
{
    let r = e.remove(i);
    let id = e[i].transfer_id@;
    assert forall|x: int| 0 <= x < r.len() implies #[trigger] r[x] == e[if x < i {
        x
    } else {
        x + 1
    }] by {}
    assert forall|x: int, y: int|
        0 <= x < r.len() && 0 <= y < r.len() && x != y implies (#[trigger] r[x]).transfer_id@ != (
        #[trigger] r[y]).transfer_id@ by {
        assert(r[x] == e[if x < i { x } else { x + 1 }]);
        assert(r[y] == e[if y < i { y } else { y + 1 }]);
    }
    assert(!has_id(r, id)) by {
        if has_id(r, id) {
            let j = choose|j: int| 0 <= j < r.len() && (#[trigger] r[j]).transfer_id@ == id;
            assert(r[j] == e[if j < i { j } else { j + 1 }]);
        }
    }
    let rhs = entries_map(e).remove(id);
    assert forall|k: Seq<char>| #[trigger] entries_map(r).dom().contains(k) == rhs.dom().contains(
        k,
    ) by {
        if has_id(r, k) {
            let j = choose|j: int| 0 <= j < r.len() && (#[trigger] r[j]).transfer_id@ == k;
            let m = if j < i { j } else { j + 1 };
            assert(r[j] == e[m]);
            assert(has_id(e, k));
        }
        if has_id(e, k) && k != id {
            let m = choose|m: int| 0 <= m < e.len() && (#[trigger] e[m]).transfer_id@ == k;
            assert(m != i);
            let j = if m < i { m } else { m - 1 };
            assert(r[j] == e[m]);
            assert(has_id(r, k));
        }
    }
    assert forall|k: Seq<char>| entries_map(r).dom().contains(k) implies #[trigger] entries_map(
        r,
    )[k] == rhs[k] by {
        let j = choose|j: int| 0 <= j < r.len() && (#[trigger] r[j]).transfer_id@ == k;
        let m = if j < i { j } else { j + 1 };
        assert(r[j] == e[m]);
        lemma_lookup(r, j);
        lemma_lookup(e, m);
    }
    assert(entries_map(r) =~= rhs);
}

/// The transfers waiting for a decision, by transfer id.
pub struct PendingDecisions<S> {
    entries: Vec<PendingEntry<S>>,
}

impl<S> View for PendingDecisions<S> {
    type V = Map<Seq<char>, S>;

    closed spec fn view(&self) -> Map<Seq<char>, S> {
        entries_map(self.entries@)
    }
}

impl<S> PendingDecisions<S> {
    /// Each transfer id is held at most once.
    pub closed spec fn wf(&self) -> bool {
        ids_unique(self.entries@)
    }

    /// No transfer waits.
    pub fn new() -> (p: PendingDecisions<S>)
        ensures
            p.wf(),
            p@ == Map::<Seq<char>, S>::empty(),
    {
        let p = PendingDecisions { entries: Vec::new() };
        assert(p@ =~= Map::<Seq<char>, S>::empty());
        p
    }

    fn find(&self, id: &str) -> (r: Option<usize>)
        ensures
            match r {
                Some(i) => i < self.entries@.len() && self.entries@[i as int].transfer_id@ == id@,
                None => !has_id(self.entries@, id@),
            },
    {
        let mut i: usize = 0;
        while i < self.entries.len()
            invariant
                i <= self.entries@.len(),
                forall|j: int| 0 <= j < i ==> (#[trigger] self.entries@[j]).transfer_id@ != id@,
            decreases self.entries.len() - i,
        {
            if same_text(self.entries[i].transfer_id.as_str(), id) {
                return Some(i);
            }
            i += 1;
        }
        None
    }

    /// Registers the decision channel of a transfer; an earlier entry with
    /// the same id is replaced.
    pub fn register(&mut self, transfer_id: String, decision: S)
        requires
            old(self).wf(),
        ensures
            final(self).wf(),
            final(self)@ == old(self)@.insert(transfer_id@, decision),
    {
        let ghost before = self.entries@;
        let ghost id = transfer_id@;
        match self.find(transfer_id.as_str()) {
            Some(i) => {
                let _replaced = self.entries.remove(i);
                proof {
                    lemma_map_of_remove(before, i as int);
                    assert(entries_map(before).remove(id).insert(id, decision) =~= entries_map(
                        before,
                    ).insert(id, decision));
                }
            },
            None => {},
        }
        let entry = PendingEntry { transfer_id, decision };
        proof {
            lemma_map_of_push(self.entries@, entry);
        }
        self.entries.push(entry);
    }

    /// Takes the decision channel of a transfer away, if it is registered:
    /// a decision is delivered through it at most once.
    pub fn take(&mut self, transfer_id: &str) -> (decision: Option<S>)
        requires
            old(self).wf(),
        ensures
            final(self).wf(),
            old(self)@.dom().contains(transfer_id@) ==> decision == Some(
                old(self)@[transfer_id@],
            ) && final(self)@ == old(self)@.remove(transfer_id@),
            !old(self)@.dom().contains(transfer_id@) ==> decision is None && final(self)@ == old(
                self,
            )@,
    {
        let ghost before = self.entries@;
        match self.find(transfer_id) {
            Some(i) => {
                proof {
                    lemma_lookup(before, i as int);
                    lemma_map_of_remove(before, i as int);
                }
                let entry = self.entries.remove(i);
                Some(entry.decision)
            },
            None => {
                proof {
                    lemma_no_id(before, transfer_id@);
                }
                None
            },
        }
    }
}

/// A decision is delivered at most once: once a transfer's channel is
/// taken, it is no longer registered.
pub proof fn lemma_taken_once<S>(pending: Map<Seq<char>, S>, transfer_id: Seq<char>)
    ensures
        !pending.remove(transfer_id).dom().contains(transfer_id),
{
}

/// A channel registered for a transfer is the one taken for it, and taking
/// it leaves the other transfers as they were.
pub proof fn lemma_registered_then_taken<S>(
    pending: Map<Seq<char>, S>,
    transfer_id: Seq<char>,
    decision: S,
)
    ensures
        pending.insert(transfer_id, decision).dom().contains(transfer_id),
        pending.insert(transfer_id, decision)[transfer_id] == decision,
        pending.insert(transfer_id, decision).remove(transfer_id) == pending.remove(transfer_id),
{
    assert(pending.insert(transfer_id, decision).remove(transfer_id) =~= pending.remove(
        transfer_id,
    ));
}

} // verus!
