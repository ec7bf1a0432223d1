//! The run queue: pending runs ordered by due time, then by task id.
use vstd::prelude::*;
use vstd::multiset::Multiset;

verus! {

/// One pending run: the instant it is due (microseconds since the Unix epoch)
/// and the task it belongs to (the task's 128-bit id).
#[derive(Debug, Clone, Copy, PartialEq, Eq, Structural)]
pub struct ScheduleEntry {
    pub next_run: i64,
    pub task_id: u128,
}

/// The queue's order: earlier due time first, ties broken by task id.
pub open spec fn entry_le(a: ScheduleEntry, b: ScheduleEntry) -> bool {
    a.next_run < b.next_run || (a.next_run == b.next_run && a.task_id <= b.task_id)
}

/// Strictly before in the queue's order.
pub open spec fn entry_lt(a: ScheduleEntry, b: ScheduleEntry) -> bool {
    a.next_run < b.next_run || (a.next_run == b.next_run && a.task_id < b.task_id)
}

/// Tests [`entry_lt`].
pub fn entry_before(a: &ScheduleEntry, b: &ScheduleEntry) -> (r: bool)
    ensures
        r == entry_lt(*a, *b),
{
    a.next_run < b.next_run || (a.next_run == b.next_run && a.task_id < b.task_id)
}

/// The entries are in the queue's order.
pub open spec fn sorted(s: Seq<ScheduleEntry>) -> bool {
    forall|i: int, j: int| 0 <= i < j < s.len() ==> entry_le(#[trigger] s[i], #[trigger] s[j])
}

/// `s` with `e` placed after every entry that is not after it.
pub open spec fn insert_sorted(s: Seq<ScheduleEntry>, e: ScheduleEntry) -> Seq<ScheduleEntry>
    decreases s.len(),
{
    if s.len() == 0 {
        seq![e]
    } else if entry_lt(e, s[0]) {
        seq![e] + s
    } else {
        seq![s[0]] + insert_sorted(s.drop_first(), e)
    }
}

/// `s` with each of `es` inserted in turn.
pub open spec fn insert_all(s: Seq<ScheduleEntry>, es: Seq<ScheduleEntry>) -> Seq<ScheduleEntry>
    decreases es.len(),
{
    if es.len() == 0 {
        s
    } else {
        insert_sorted(insert_all(s, es.drop_last()), es.last())
    }
}

proof fn lemma_insert_at_first_greater(s: Seq<ScheduleEntry>, e: ScheduleEntry, i: int)
    requires
        0 <= i <= s.len(),
        forall|j: int| 0 <= j < i ==> !entry_lt(e, #[trigger] s[j]),
        i == s.len() || entry_lt(e, s[i]),
    ensures
        insert_sorted(s, e) == s.insert(i, e),
    decreases i,
{
    if s.len() == 0 {
        assert(s.insert(i, e) =~= seq![e]);
    } else if i == 0 {
        assert(s.insert(0, e) =~= seq![e] + s);
    } else {
        let t = s.drop_first();
        assert forall|j: int| 0 <= j < i - 1 implies !entry_lt(e, #[trigger] t[j]) by {
            assert(t[j] == s[j + 1]);
        }
        if i < s.len() {
            assert(t[i - 1] == s[i]);
        }
        lemma_insert_at_first_greater(t, e, i - 1);
        assert(s.insert(i, e) =~= seq![s[0]] + t.insert(i - 1, e));
    }
}

proof fn lemma_cons_multiset(a: ScheduleEntry, x: Seq<ScheduleEntry>)
    ensures
        (seq![a] + x).to_multiset() =~= x.to_multiset().insert(a),
{
    broadcast use vstd::seq_lib::group_to_multiset_ensures;
    let y = seq![a] + x;
    assert(y.remove(0) =~= x);
    assert(y[0] == a);
    assert(y.contains(a));
    assert(y.to_multiset().count(a) > 0);
    assert(y.to_multiset().remove(a) =~= x.to_multiset());
    assert(y.to_multiset() =~= y.to_multiset().remove(a).insert(a));
}

/// Inserting into an ordered queue keeps it ordered and adds exactly the new entry.
pub proof fn lemma_insert_sorted(s: Seq<ScheduleEntry>, e: ScheduleEntry)
    requires
        sorted(s),
    ensures
        sorted(insert_sorted(s, e)),
        insert_sorted(s, e).to_multiset() =~= s.to_multiset().insert(e),
        insert_sorted(s, e).len() == s.len() + 1,
    decreases s.len(),
{
    broadcast use vstd::seq_lib::group_to_multiset_ensures;
    let r = insert_sorted(s, e);
    if s.len() == 0 {
        assert(r =~= seq![e]);
        assert(seq![e] =~= Seq::<ScheduleEntry>::empty().push(e));
    } else if entry_lt(e, s[0]) {
        assert forall|i: int, j: int| 0 <= i < j < r.len() implies entry_le(
            #[trigger] r[i],
            #[trigger] r[j],
        ) by {
            if i == 0 {
                assert(entry_le(s[0], s[j - 1]));
            } else {
                assert(r[i] == s[i - 1] && r[j] == s[j - 1]);
            }
        }
        lemma_cons_multiset(e, s);
    } else {
        let t = s.drop_first();
        assert(sorted(t)) by {
            assert forall|i: int, j: int| 0 <= i < j < t.len() implies entry_le(
                #[trigger] t[i],
                #[trigger] t[j],
            ) by {
                assert(t[i] == s[i + 1] && t[j] == s[j + 1]);
            }
        }
        lemma_insert_sorted(t, e);
        let rt = insert_sorted(t, e);
        assert(r =~= seq![s[0]] + rt);
        assert forall|i: int, j: int| 0 <= i < j < r.len() implies entry_le(
            #[trigger] r[i],
            #[trigger] r[j],
        ) by {
            if i == 0 {
                assert(r[j] == rt[j - 1]);
                assert(rt.to_multiset().count(rt[j - 1]) > 0);
                assert(t.to_multiset().insert(e).count(rt[j - 1]) > 0);
                if rt[j - 1] != e {
                    assert(t.to_multiset().count(rt[j - 1]) > 0);
                    assert(t.contains(rt[j - 1]));
                    let k = choose|k: int| 0 <= k < t.len() && t[k] == rt[j - 1];
                    assert(entry_le(s[0], s[k + 1]));
                }
            } else {
                assert(r[i] == rt[i - 1] && r[j] == rt[j - 1]);
            }
        }
        assert(s =~= seq![s[0]] + t);
        lemma_cons_multiset(s[0], rt);
        lemma_cons_multiset(s[0], t);
    }
}

/// Inserting several entries keeps the queue ordered and adds exactly them.
pub proof fn lemma_insert_all(s: Seq<ScheduleEntry>, es: Seq<ScheduleEntry>)
    requires
        sorted(s),
    ensures
        sorted(insert_all(s, es)),
        insert_all(s, es).to_multiset() =~= s.to_multiset().add(es.to_multiset()),
    decreases es.len(),
{
    broadcast use vstd::seq_lib::group_to_multiset_ensures;
    if es.len() == 0 {
        assert(es.to_multiset() =~= Multiset::<ScheduleEntry>::empty());
    } else {
        lemma_insert_all(s, es.drop_last());
        lemma_insert_sorted(insert_all(s, es.drop_last()), es.last());
        assert(es.drop_last().push(es.last()) =~= es);
    }
}

/// Pending runs, kept in the queue's order.
pub struct RunQueue {
    entries: Vec<ScheduleEntry>,
}

impl View for RunQueue {
    type V = Seq<ScheduleEntry>;

    closed spec fn view(&self) -> Seq<ScheduleEntry> {
        self.entries@
    }
}

impl RunQueue {
    /// The queue is in order.
    pub open spec fn wf(&self) -> bool {
        sorted(self@)
    }

    /// An empty queue.
    pub fn new() -> (q: RunQueue)
        ensures
            q.wf(),
            q@ == Seq::<ScheduleEntry>::empty(),
    {
        RunQueue { entries: Vec::new() }
    }

    /// The number of pending runs.
    pub fn len(&self) -> (n: usize)
        ensures
            n == self@.len(),
    {
        self.entries.len()
    }

    /// The earliest pending run, if any.
    pub fn peek(&self) -> (r: Option<ScheduleEntry>)
        ensures
            r == (if self@.len() == 0 { None } else { Some(self@[0]) }),
    {
        if self.entries.len() == 0 {
            None
        } else {
            Some(self.entries[0])
        }
    }

    /// Adds a pending run in its place.
    pub fn push(&mut self, e: ScheduleEntry)
        requires
            old(self).wf(),
        ensures
            final(self).wf(),
            final(self)@ == insert_sorted(old(self)@, e),
            final(self)@.to_multiset() =~= old(self)@.to_multiset().insert(e),
    {
        let mut i: usize = 0;
        while i < self.entries.len() && !entry_before(&e, &self.entries[i])
            invariant
                i <= self.entries@.len(),
                self.entries@ == old(self).entries@,
                forall|j: int| 0 <= j < i ==> !entry_lt(e, #[trigger] self.entries@[j]),
            decreases self.entries@.len() - i,
        {
            i = i + 1;
        }
        proof {
            lemma_insert_at_first_greater(self.entries@, e, i as int);
            lemma_insert_sorted(self.entries@, e);
        }
        self.entries.insert(i, e);
    }

    /// Removes and returns the earliest pending run, if any.
    pub fn pop(&mut self) -> (r: Option<ScheduleEntry>)
        requires
            old(self).wf(),
        ensures
            final(self).wf(),
            old(self)@.len() == 0 ==> r is None && final(self)@ == old(self)@,
            old(self)@.len() > 0 ==> r == Some(old(self)@[0]) && final(self)@
                == old(self)@.drop_first(),
    {
        if self.entries.len() == 0 {
            None
        } else {
            let e = self.entries.remove(0);
            proof {
                assert(old(self).entries@.remove(0) =~= old(self).entries@.drop_first());
            }
            Some(e)
        }
    }

    /// Removes every pending run.
    pub fn clear(&mut self)
        ensures
            final(self).wf(),
            final(self)@ == Seq::<ScheduleEntry>::empty(),
    {
        self.entries.clear();
    }
}

/// The head of an ordered queue comes no later than any pending run.
pub proof fn law_head_is_earliest(s: Seq<ScheduleEntry>, e: ScheduleEntry)
    requires
        sorted(s),
        s.contains(e),
    ensures
        entry_le(s[0], e),
{
    let k = choose|k: int| 0 <= k < s.len() && s[k] == e;
    if k > 0 {
        assert(entry_le(s[0], s[k]));
    }
}

/// What is pushed is what comes out: pushing and then popping from an empty
/// queue gives back the pushed entry and leaves the queue empty.
pub proof fn law_push_then_pop_empty(e: ScheduleEntry)
    ensures
        insert_sorted(Seq::<ScheduleEntry>::empty(), e)[0] == e,
        insert_sorted(Seq::<ScheduleEntry>::empty(), e).drop_first() =~= Seq::<ScheduleEntry>::empty(),
{
}

} // verus!
