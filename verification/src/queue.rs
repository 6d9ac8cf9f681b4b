//! The libsolv id queue: a growable sequence of ids with cheap operations at
//! both ends, used for jobs, results and every other list libsolv passes around.
use vstd::prelude::*;

use crate::Id;

verus! {

// ---------------------------------------------------------------------------
// The mathematical model: a queue is a sequence of ids, and every operation is
// a function from the old sequence to the new one.
// ---------------------------------------------------------------------------

/// Where an insertion at `pos` lands: a position past the end means the end.
pub open spec fn landing(s: Seq<Id>, pos: int) -> int {
    if pos < s.len() {
        pos
    } else {
        s.len() as int
    }
}

/// `s` with `ins` put in at `pos`; an insertion past the end appends.
pub open spec fn inserted(s: Seq<Id>, pos: int, ins: Seq<Id>) -> Seq<Id> {
    s.take(landing(s, pos)) + ins + s.skip(landing(s, pos))
}

/// `s` with the elements `pos .. pos + n` taken out, as far as there are any;
/// nothing happens when `n <= 0` or when `pos` is past the end.
pub open spec fn deleted(s: Seq<Id>, pos: int, n: int) -> Seq<Id> {
    if n <= 0 || pos >= s.len() {
        s
    } else if pos + n >= s.len() {
        s.take(pos)
    } else {
        s.take(pos) + s.skip(pos + n)
    }
}

/// What `shift` hands back: the first element, or 0 for an empty queue.
pub open spec fn shifted_value(s: Seq<Id>) -> Id {
    if s.len() == 0 {
        0
    } else {
        s[0]
    }
}

/// What `shift` leaves: everything but the first element.
pub open spec fn shifted(s: Seq<Id>) -> Seq<Id> {
    if s.len() == 0 {
        s
    } else {
        s.drop_first()
    }
}

/// What `pop` hands back: the last element, or 0 for an empty queue.
pub open spec fn popped_value(s: Seq<Id>) -> Id {
    if s.len() == 0 {
        0
    } else {
        s.last()
    }
}

/// What `pop` leaves: everything but the last element.
pub open spec fn popped(s: Seq<Id>) -> Seq<Id> {
    if s.len() == 0 {
        s
    } else {
        s.drop_last()
    }
}

/// `s` with `id` appended unless it is already in it.
pub open spec fn pushed_unique(s: Seq<Id>, id: Id) -> Seq<Id> {
    if s.contains(id) {
        s
    } else {
        s.push(id)
    }
}

/// The first `n` elements of `s`, or all of `s` when it has no more than `n`.
pub open spec fn truncated(s: Seq<Id>, n: int) -> Seq<Id> {
    if n < s.len() {
        s.take(n)
    } else {
        s
    }
}

/// Whether no id occurs twice in `s`.
pub open spec fn no_duplicates(s: Seq<Id>) -> bool {
    forall|i: int, j: int| 0 <= i < s.len() && 0 <= j < s.len() && i != j ==> s[i] != s[j]
}

// ---------------------------------------------------------------------------
// Laws of the queue, over the model that the operations' contracts use.
// ---------------------------------------------------------------------------

/// `pop` undoes `push`: it hands back the id just pushed and leaves the queue
/// as it was before.
pub proof fn law_push_then_pop(s: Seq<Id>, id: Id)
    ensures
        popped_value(s.push(id)) == id,
        popped(s.push(id)) == s,
{
    assert(s.push(id).drop_last() =~= s);
}

/// `shift` undoes `unshift`: it hands back the id just put in front and leaves
/// the queue as it was before.
pub proof fn law_unshift_then_shift(s: Seq<Id>, id: Id)
    ensures
        shifted_value(seq![id] + s) == id,
        shifted(seq![id] + s) == s,
{
    assert((seq![id] + s).drop_first() =~= s);
}

/// A queue is first in, first out: after pushing onto a non-empty queue,
/// `shift` still hands back the oldest id.
pub proof fn law_push_then_shift(s: Seq<Id>, id: Id)
    requires
        s.len() > 0,
    ensures
        shifted_value(s.push(id)) == s[0],
        shifted(s.push(id)) == shifted(s).push(id),
{
    assert(s.push(id).drop_first() =~= s.drop_first().push(id));
}

/// Deleting at the position of an insertion undoes it.
pub proof fn law_insert_then_delete(s: Seq<Id>, pos: int, id: Id)
    requires
        0 <= pos <= s.len(),
    ensures
        deleted(inserted(s, pos, seq![id]), pos, 1) == s,
{
    let t = inserted(s, pos, seq![id]);
    if pos + 1 >= t.len() {
        assert(t.take(pos) =~= s);
    } else {
        assert(t.take(pos) + t.skip(pos + 1) =~= s);
    }
}

/// Deleting as many ids as were inserted, at the same position, undoes the
/// insertion.
pub proof fn law_insertn_then_deleten(s: Seq<Id>, pos: int, ins: Seq<Id>)
    requires
        0 <= pos <= s.len(),
    ensures
        deleted(inserted(s, pos, ins), pos, ins.len() as int) == s,
{
    let t = inserted(s, pos, ins);
    if ins.len() == 0 {
        assert(t =~= s);
    } else if pos + ins.len() >= t.len() {
        assert(t.take(pos) =~= s);
    } else {
        assert(t.take(pos) + t.skip(pos + ins.len()) =~= s);
    }
}

/// Inserting two ids at once is inserting the first and then the second just
/// behind it.
pub proof fn law_insert2_is_two_inserts(s: Seq<Id>, pos: int, id1: Id, id2: Id)
    requires
        0 <= pos <= s.len(),
    ensures
        inserted(s, pos, seq![id1, id2]) == inserted(inserted(s, pos, seq![id1]), pos + 1, seq![id2]),
{
    let t = inserted(s, pos, seq![id1]);
    assert(landing(t, pos + 1) == pos + 1);
    assert(inserted(s, pos, seq![id1, id2]) =~= inserted(t, pos + 1, seq![id2]));
}

/// An insertion at or past the end appends, so `push` is an insertion at the end.
pub proof fn law_insert_at_end_is_push(s: Seq<Id>, pos: int, id: Id)
    requires
        pos >= s.len(),
    ensures
        inserted(s, pos, seq![id]) == s.push(id),
{
    assert(inserted(s, pos, seq![id]) =~= s.push(id));
}

/// Deleting two ids at a position is deleting one there twice.
pub proof fn law_delete2_is_two_deletes(s: Seq<Id>, pos: int)
    requires
        pos >= 0,
    ensures
        deleted(s, pos, 2) == deleted(deleted(s, pos, 1), pos, 1),
{
    let t = deleted(s, pos, 1);
    if pos >= s.len() {
    } else if pos + 2 >= s.len() {
        assert(deleted(t, pos, 1) =~= s.take(pos));
    } else {
        assert(deleted(t, pos, 1) =~= s.take(pos) + s.skip(pos + 2));
    }
}

/// Deleting the first id leaves what `shift` leaves, and deleting the last id
/// leaves what `pop` leaves.
pub proof fn law_delete_at_ends(s: Seq<Id>)
    requires
        s.len() > 0,
    ensures
        deleted(s, 0, 1) == shifted(s),
        deleted(s, s.len() - 1, 1) == popped(s),
{
    if s.len() == 1 {
        assert(s.take(0) =~= s.drop_first());
    } else {
        assert(s.take(0) + s.skip(1) =~= s.drop_first());
    }
    assert(s.take(s.len() - 1) =~= s.drop_last());
}

/// Truncating to nothing empties the queue, as `clear` does.
pub proof fn law_truncate_zero_is_clear(s: Seq<Id>)
    ensures
        truncated(s, 0) == Seq::<Id>::empty(),
{
    assert(truncated(s, 0) =~= Seq::<Id>::empty());
}

/// `pushunique` keeps a queue free of duplicates, and afterwards the id is in it.
pub proof fn law_pushunique_keeps_distinct(s: Seq<Id>, id: Id)
    requires
        no_duplicates(s),
    ensures
        no_duplicates(pushed_unique(s, id)),
        pushed_unique(s, id).contains(id),
{
    if !s.contains(id) {
        let t = s.push(id);
        assert(t[s.len() as int] == id);
        assert forall|i: int, j: int| 0 <= i < t.len() && 0 <= j < t.len() && i != j implies t[i] != t[j] by {
            if i == s.len() {
                assert(s[j] != id);
            } else if j == s.len() {
                assert(s[i] != id);
            } else {
                assert(t[i] == s[i] && t[j] == s[j]);
            }
        }
    }
}

/// `pushunique` only ever appends: the old queue is a prefix of the new one,
/// which holds the id and is at most one longer; a queue that already holds
/// the id is left exactly as it was, and otherwise the id lands at the end.
pub proof fn law_pushunique_extends(s: Seq<Id>, id: Id)
    ensures
        s.is_prefix_of(pushed_unique(s, id)),
        pushed_unique(s, id).len() <= s.len() + 1,
        pushed_unique(s, id).contains(id),
        s.contains(id) ==> pushed_unique(s, id) == s,
        !s.contains(id) ==> pushed_unique(s, id).len() == s.len() + 1 && pushed_unique(s, id).last()
            == id,
{
    let t = pushed_unique(s, id);
    if !s.contains(id) {
        assert(t[s.len() as int] == id);
        assert(s.is_prefix_of(t));
    } else {
        assert(s.is_prefix_of(s));
    }
}

/// A second `pushunique` of the same id changes nothing.
pub proof fn law_pushunique_idempotent(s: Seq<Id>, id: Id)
    ensures
        pushed_unique(pushed_unique(s, id), id) == pushed_unique(s, id),
{
    if !s.contains(id) {
        assert(s.push(id)[s.len() as int] == id);
    }
}

/// Truncating gives a prefix, and truncating again to the same length changes
/// nothing.
pub proof fn law_truncate_prefix(s: Seq<Id>, n: int)
    requires
        n >= 0,
    ensures
        truncated(s, n).len() <= n,
        truncated(s, n).is_prefix_of(s),
        truncated(truncated(s, n), n) == truncated(s, n),
{
    assert(truncated(s, n).is_prefix_of(s));
}

// ---------------------------------------------------------------------------
// The executable queue.
// ---------------------------------------------------------------------------

/// A queue of ids. Its length always fits in a C `int`, as libsolv counts it
/// with one.
#[derive(Debug)]
pub struct Queue {
    elements: Vec<Id>,
}

impl View for Queue {
    type V = Seq<Id>;

    closed spec fn view(&self) -> Seq<Id> {
        self.elements@
    }
}

impl Queue {
    #[verifier::type_invariant]
    closed spec fn count_fits(&self) -> bool {
        self.elements@.len() <= i32::MAX
    }

    /// Moves the elements out, leaving the queue empty.
    fn take_elements(&mut self) -> (v: Vec<Id>)
        ensures
            v@ == old(self)@,
            v@.len() <= i32::MAX,
            final(self)@ == Seq::<Id>::empty(),
    {
        proof {
            use_type_invariant(&*self);
        }
        let mut v: Vec<Id> = Vec::new();
        std::mem::swap(&mut v, &mut self.elements);
        v
    }

    /// Puts `v` in as the queue's elements.
    fn put_elements(&mut self, v: Vec<Id>)
        requires
            v@.len() <= i32::MAX,
        ensures
            final(self)@ == v@,
    {
        self.elements = v;
    }

    /// An empty queue.
    pub fn new() -> (q: Queue)
        ensures
            q@ == Seq::<Id>::empty(),
    {
        Queue { elements: Vec::new() }
    }

    /// Empties the queue.
    pub fn clear(&mut self)
        ensures
            final(self)@ == Seq::<Id>::empty(),
    {
        self.elements = Vec::new();
    }

    /// The number of ids in the queue.
    pub fn len(&self) -> (n: i32)
        ensures
            n == self@.len(),
    {
        proof {
            use_type_invariant(self);
        }
        self.elements.len() as i32
    }

    /// Takes the first id out and returns it; an empty queue stays empty and
    /// gives 0.
    pub fn shift(&mut self) -> (id: Id)
        ensures
            id == shifted_value(old(self)@),
            final(self)@ == shifted(old(self)@),
    {
        let mut v = self.take_elements();
        if v.len() == 0 {
            self.put_elements(v);
            0
        } else {
            let id = v.remove(0);
            self.put_elements(v);
            id
        }
    }

    /// Takes the last id out and returns it; an empty queue stays empty and
    /// gives 0.
    pub fn pop(&mut self) -> (id: Id)
        ensures
            id == popped_value(old(self)@),
            final(self)@ == popped(old(self)@),
    {
        let mut v = self.take_elements();
        let r = v.pop();
        self.put_elements(v);
        match r {
            Some(id) => id,
            None => 0,
        }
    }

    /// Puts `id` in front of the queue.
    pub fn unshift(&mut self, id: Id)
        requires
            old(self)@.len() < i32::MAX,
        ensures
            final(self)@ == seq![id] + old(self)@,
    {
        let mut v = self.take_elements();
        v.insert(0, id);
        assert(v@ =~= seq![id] + old(self)@);
        self.put_elements(v);
    }

    /// Appends `id`.
    pub fn push(&mut self, id: Id)
        requires
            old(self)@.len() < i32::MAX,
        ensures
            final(self)@ == old(self)@.push(id),
    {
        let mut v = self.take_elements();
        v.push(id);
        self.put_elements(v);
    }

    /// Appends `id` unless the queue already holds it.
    pub fn pushunique(&mut self, id: Id)
        requires
            !old(self)@.contains(id) ==> old(self)@.len() < i32::MAX,
        ensures
            final(self)@ == pushed_unique(old(self)@, id),
            old(self)@.contains(id) ==> final(self)@ == old(self)@,
            !old(self)@.contains(id) ==> final(self)@ == old(self)@.push(id),
    {
        let n = self.elements.len();
        let mut i: usize = 0;
        while i < n
            invariant
                n == self.elements@.len(),
                self@ == old(self)@,
                0 <= i <= n,
                forall|j: int| 0 <= j < i ==> self.elements@[j] != id,
            decreases n - i,
        {
            if self.elements[i] == id {
                assert(self@.contains(id)) by {
                    assert(self@[i as int] == id);
                }
                return;
            }
            i = i + 1;
        }
        assert(!old(self)@.contains(id));
        self.push(id);
    }

    /// Appends `id1` and then `id2`.
    pub fn push2(&mut self, id1: Id, id2: Id)
        requires
            old(self)@.len() + 2 <= i32::MAX,
        ensures
            final(self)@ == old(self)@.push(id1).push(id2),
    {
        self.push(id1);
        self.push(id2);
    }

    /// Keeps only the first `n` ids; a queue with no more than `n` stays as it is.
    pub fn truncate(&mut self, n: i32)
        requires
            n >= 0,
        ensures
            final(self)@ == truncated(old(self)@, n as int),
    {
        let mut v = self.take_elements();
        let k = n as usize;
        if k < v.len() {
            v.truncate(k);
        }
        self.put_elements(v);
    }

    /// Puts `id` in at position `pos`, moving the ids from there on one place
    /// back; a position past the end appends.
    pub fn insert(&mut self, pos: i32, id: Id)
        requires
            pos >= 0,
            old(self)@.len() < i32::MAX,
        ensures
            final(self)@ == inserted(old(self)@, pos as int, seq![id]),
    {
        let mut v = self.take_elements();
        let p = if (pos as usize) < v.len() {
            pos as usize
        } else {
            v.len()
        };
        v.insert(p, id);
        assert(v@ =~= inserted(old(self)@, pos as int, seq![id]));
        self.put_elements(v);
    }

    /// Puts `id1` and `id2` in at position `pos`, in that order; a position
    /// past the end appends them.
    pub fn insert2(&mut self, pos: i32, id1: Id, id2: Id)
        requires
            pos >= 0,
            old(self)@.len() + 2 <= i32::MAX,
        ensures
            final(self)@ == inserted(old(self)@, pos as int, seq![id1, id2]),
    {
        let mut v = self.take_elements();
        let p = if (pos as usize) < v.len() {
            pos as usize
        } else {
            v.len()
        };
        v.insert(p, id1);
        v.insert(p + 1, id2);
        assert(v@ =~= inserted(old(self)@, pos as int, seq![id1, id2]));
        self.put_elements(v);
    }

    /// Puts all of `elements` in at position `pos`, in their order; a position
    /// past the end appends them. `elements` is left as it was.
    pub fn insertn(&mut self, pos: i32, elements: &mut [Id])
        requires
            pos >= 0,
            old(self)@.len() + old(elements)@.len() <= i32::MAX,
        ensures
            final(self)@ == inserted(old(self)@, pos as int, old(elements)@),
            final(elements)@ == old(elements)@,
    {
        let mut v = self.take_elements();
        let p = if (pos as usize) < v.len() {
            pos as usize
        } else {
            v.len()
        };
        let mut tail = v.split_off(p);
        let n = elements.len();
        let mut i: usize = 0;
        while i < n
            invariant
                n == elements@.len(),
                0 <= i <= n,
                v@ == old(self)@.take(p as int) + elements@.take(i as int),
            decreases n - i,
        {
            v.push(elements[i]);
            assert(elements@.take(i as int + 1) =~= elements@.take(i as int).push(elements@[i as int]));
            i = i + 1;
        }
        assert(elements@.take(n as int) =~= elements@);
        v.append(&mut tail);
        assert(v@ =~= inserted(old(self)@, pos as int, old(elements)@));
        self.put_elements(v);
    }

    /// Takes out the id at `pos`; nothing happens when `pos` is past the end.
    pub fn delete(&mut self, pos: i32)
        requires
            pos >= 0,
        ensures
            final(self)@ == deleted(old(self)@, pos as int, 1),
    {
        self.deleten(pos, 1);
    }

    /// Takes out the ids at `pos` and `pos + 1`, as far as there are any.
    pub fn delete2(&mut self, pos: i32)
        requires
            pos >= 0,
        ensures
            final(self)@ == deleted(old(self)@, pos as int, 2),
    {
        self.deleten(pos, 2);
    }

    /// Takes out the `n` ids from `pos` on, as far as there are any; nothing
    /// happens when `n <= 0` or `pos` is past the end.
    pub fn deleten(&mut self, pos: i32, n: i32)
        requires
            n > 0 ==> pos >= 0,
        ensures
            final(self)@ == deleted(old(self)@, pos as int, n as int),
    {
        if n <= 0 {
            return;
        }
        let mut v = self.take_elements();
        if (pos as usize) < v.len() {
            let mut tail = v.split_off(pos as usize);
            if (n as usize) < tail.len() {
                let mut rest = tail.split_off(n as usize);
                v.append(&mut rest);
            }
            assert(v@ =~= deleted(old(self)@, pos as int, n as int));
        }
        self.put_elements(v);
    }

    /// Changes the id at position `i` to `id`.
    pub fn set(&mut self, i: usize, id: Id)
        requires
            i < old(self)@.len(),
        ensures
            final(self)@ == old(self)@.update(i as int, id),
    {
        let mut v = self.take_elements();
        v.set(i, id);
        self.put_elements(v);
    }

    /// The ids, first to last.
    pub fn as_ref(&self) -> (s: &[Id])
        ensures
            s@ == self@,
    {
        self.elements.as_slice()
    }
}

impl Default for Queue {
    fn default() -> (q: Queue)
        ensures
            q@ == Seq::<Id>::empty(),
    {
        Queue::new()
    }
}

} // verus!
