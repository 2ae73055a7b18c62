//! Offsets waiting to be committed, one per (topic, partition).

use vstd::prelude::*;

use crate::text::str_eq;

verus! {

/// A handler finished a message: everything before `next_offset` on this
/// partition may be committed.
#[derive(Debug)]
pub struct CommitAck {
    pub topic: String,
    pub partition: i32,
    pub next_offset: i64,
}

/// The (topic, partition) that an acknowledgement speaks of.
pub open spec fn ack_key(a: CommitAck) -> (Seq<char>, i32) {
    (a.topic@, a.partition)
}

/// The offsets that a list of acknowledgements asks to commit: for each
/// (topic, partition), the offset of its last acknowledgement in the list.
pub open spec fn offsets_of(s: Seq<CommitAck>) -> Map<(Seq<char>, i32), i64>
    decreases s.len(),
{
    if s.len() == 0 {
        Map::empty()
    } else {
        offsets_of(s.drop_last()).insert(ack_key(s.last()), s.last().next_offset)
    }
}

/// No (topic, partition) occurs twice in the list.
pub open spec fn distinct_keys(s: Seq<CommitAck>) -> bool {
    forall|i: int, j: int|
        0 <= i < s.len() && 0 <= j < s.len() && i != j ==> ack_key(#[trigger] s[i]) != ack_key(
            #[trigger] s[j],
        )
}

/// The keys of `offsets_of(s)` are exactly the keys occurring in `s`, and the
/// map is finite.
pub proof fn lemma_offsets_dom(s: Seq<CommitAck>)
    ensures
        offsets_of(s).dom().finite(),
        forall|k: (Seq<char>, i32)|
            offsets_of(s).dom().contains(k) <==> exists|i: int|
                0 <= i < s.len() && #[trigger] ack_key(s[i]) == k,
    decreases s.len(),
{
    if s.len() > 0 {
        let t = s.drop_last();
        lemma_offsets_dom(t);
        assert forall|k: (Seq<char>, i32)|
            offsets_of(s).dom().contains(k) <==> exists|i: int|
                0 <= i < s.len() && #[trigger] ack_key(s[i]) == k by {
            if offsets_of(s).dom().contains(k) && k != ack_key(s.last()) {
                let i = choose|i: int| 0 <= i < t.len() && #[trigger] ack_key(t[i]) == k;
                assert(ack_key(s[i]) == k);
            }
            if exists|i: int| 0 <= i < s.len() && #[trigger] ack_key(s[i]) == k {
                let i = choose|i: int| 0 <= i < s.len() && #[trigger] ack_key(s[i]) == k;
                if i < s.len() - 1 {
                    assert(ack_key(t[i]) == k);
                }
            }
        }
    }
}

/// With distinct keys, the number of offsets equals the number of entries.
pub proof fn lemma_offsets_len(s: Seq<CommitAck>)
    requires
        distinct_keys(s),
    ensures
        offsets_of(s).len() == s.len(),
    decreases s.len(),
{
    if s.len() > 0 {
        let t = s.drop_last();
        assert(distinct_keys(t)) by {
            assert forall|i: int, j: int|
                0 <= i < t.len() && 0 <= j < t.len() && i != j implies ack_key(#[trigger] t[i])
                != ack_key(#[trigger] t[j]) by {
                assert(t[i] == s[i] && t[j] == s[j]);
            }
        }
        lemma_offsets_len(t);
        lemma_offsets_dom(t);
        if offsets_of(t).dom().contains(ack_key(s.last())) {
            let i = choose|i: int| 0 <= i < t.len() && #[trigger] ack_key(t[i]) == ack_key(
                s.last(),
            );
            assert(s[i] == t[i]);
            assert(ack_key(s[i]) != ack_key(s[s.len() - 1]));
        }
    }
}

/// Replacing the entry whose key is `ack_key(a)` by `a` sets that key's offset.
proof fn lemma_offsets_update(s: Seq<CommitAck>, i: int, a: CommitAck)
    requires
        distinct_keys(s),
        0 <= i < s.len(),
        ack_key(s[i]) == ack_key(a),
    ensures
        offsets_of(s.update(i, a)) =~= offsets_of(s).insert(ack_key(a), a.next_offset),
    decreases s.len(),
{
    let u = s.update(i, a);
    let t = s.drop_last();
    if i == s.len() - 1 {
        assert(u.drop_last() =~= t);
    } else {
        assert(u.drop_last() =~= t.update(i, a));
        assert(distinct_keys(t)) by {
            assert forall|p: int, q: int|
                0 <= p < t.len() && 0 <= q < t.len() && p != q implies ack_key(#[trigger] t[p])
                != ack_key(#[trigger] t[q]) by {
                assert(t[p] == s[p] && t[q] == s[q]);
            }
        }
        lemma_offsets_update(t, i, a);
        assert(ack_key(s.last()) != ack_key(a)) by {
            assert(ack_key(s[i]) != ack_key(s[s.len() - 1]));
        }
    }
}

/// Offsets acknowledged but not committed yet.
pub struct CommitState {
    pending: Vec<CommitAck>,
}

impl View for CommitState {
    type V = Map<(Seq<char>, i32), i64>;

    /// The pending offsets, by (topic, partition).
    closed spec fn view(&self) -> Map<(Seq<char>, i32), i64> {
        offsets_of(self.pending@)
    }
}

impl CommitState {
    #[verifier::type_invariant]
    spec fn inv(self) -> bool {
        distinct_keys(self.pending@)
    }

    /// An empty state.
    pub fn new() -> (s: Self)
        ensures
            s@ == Map::<(Seq<char>, i32), i64>::empty(),
    {
        CommitState { pending: Vec::new() }
    }

    /// Remembers `ack`; a later acknowledgement of the same (topic,
    /// partition) replaces an earlier one.
    pub fn record(&mut self, ack: CommitAck)
        ensures
            final(self)@ == old(self)@.insert(ack_key(ack), ack.next_offset),
    {
        proof {
            use_type_invariant(&*self);
        }
        let ghost orig = self.pending@;
        let n = self.pending.len();
        let mut i: usize = 0;
        while i < n
            invariant
                self.pending@ == orig,
                orig == old(self).pending@,
                i <= n,
                n == self.pending@.len(),
                distinct_keys(self.pending@),
                forall|j: int| 0 <= j < i ==> ack_key(#[trigger] self.pending@[j]) != ack_key(ack),
            decreases n - i,
        {
            let same = self.pending[i].partition == ack.partition && str_eq(
                self.pending[i].topic.as_str(),
                ack.topic.as_str(),
            );
            if same {
                let ghost before = self.pending@;
                assert(ack_key(before[i as int]) == ack_key(ack));
                proof {
                    lemma_offsets_update(before, i as int, ack);
                }
                let mut pending: Vec<CommitAck> = Vec::new();
                std::mem::swap(&mut pending, &mut self.pending);
                pending.set(i, ack);
                assert(pending@ =~= before.update(i as int, ack));
                assert(distinct_keys(pending@)) by {
                    assert forall|p: int, q: int|
                        0 <= p < pending@.len() && 0 <= q < pending@.len() && p != q implies ack_key(
                        #[trigger] pending@[p],
                    ) != ack_key(#[trigger] pending@[q]) by {
                        assert(ack_key(pending@[p]) == ack_key(before[p]));
                        assert(ack_key(pending@[q]) == ack_key(before[q]));
                    }
                }
                self.pending = pending;
                assert(offsets_of(self.pending@) == offsets_of(orig).insert(
                    ack_key(ack),
                    ack.next_offset,
                ));
                return;
            }
            i = i + 1;
        }
        let ghost before = self.pending@;
        let mut pending: Vec<CommitAck> = Vec::new();
        std::mem::swap(&mut pending, &mut self.pending);
        pending.push(ack);
        assert(pending@.drop_last() =~= before);
        assert(distinct_keys(pending@)) by {
            assert forall|p: int, q: int|
                0 <= p < pending@.len() && 0 <= q < pending@.len() && p != q implies ack_key(
                #[trigger] pending@[p],
            ) != ack_key(#[trigger] pending@[q]) by {
                if p < before.len() {
                    assert(pending@[p] == before[p]);
                }
                if q < before.len() {
                    assert(pending@[q] == before[q]);
                }
            }
        }
        self.pending = pending;
        assert(offsets_of(self.pending@) == offsets_of(orig).insert(ack_key(ack), ack.next_offset));
    }

    /// Number of partitions with an offset waiting.
    pub fn pending_len(&self) -> (n: usize)
        ensures
            n == self@.len(),
            self@.dom().finite(),
    {
        proof {
            use_type_invariant(self);
            lemma_offsets_len(self.pending@);
            lemma_offsets_dom(self.pending@);
        }
        self.pending.len()
    }

    /// Takes every pending offset out: `None` when nothing waits, else each
    /// (topic, partition) once with its latest offset. Afterwards nothing
    /// is pending.
    pub fn flush(&mut self) -> (r: Option<Vec<CommitAck>>)
        ensures
            final(self)@ == Map::<(Seq<char>, i32), i64>::empty(),
            match r {
                None => old(self)@ == Map::<(Seq<char>, i32), i64>::empty(),
                Some(list) => {
                    &&& list@.len() > 0
                    &&& offsets_of(list@) == old(self)@
                    &&& distinct_keys(list@)
                },
            },
    {
        proof {
            use_type_invariant(&*self);
        }
        let mut taken: Vec<CommitAck> = Vec::new();
        std::mem::swap(&mut taken, &mut self.pending);
        if taken.len() == 0 {
            assert(taken@ =~= Seq::<CommitAck>::empty());
            None
        } else {
            Some(taken)
        }
    }
}

} // verus!
