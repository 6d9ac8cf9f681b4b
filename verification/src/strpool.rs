//! The libsolv string pool: strings interned once and named by small ids.
//! The strings live one after another, each closed by a NUL byte, in one byte
//! space; an id names the offset where its string starts.
use vstd::prelude::*;

use crate::Id;

verus! {

/// The id of the string that stands for "no string".
pub const STRID_NULL: Id = 0;

/// The id of the empty string.
pub const STRID_EMPTY: Id = 1;

/// The bytes of the string that id 0 names.
pub open spec fn null_string() -> Seq<u8> {
    seq![60u8, 78u8, 85u8, 76u8, 76u8, 62u8]
}

/// Whether `s` can stand in a C string: no NUL byte in it.
pub open spec fn no_nul(s: Seq<u8>) -> bool {
    forall|k: int| 0 <= k < s.len() ==> s[k] != 0
}

/// Whether `v`, the strings by id, is a pool's content: id 0 names "<NULL>",
/// id 1 the empty string, no string holds a NUL byte, no string occurs twice
/// from id 1 on, and the ids fit in a C `int`.
pub open spec fn valid_pool(v: Seq<Seq<u8>>) -> bool {
    &&& 2 <= v.len() <= i32::MAX
    &&& v[0] == null_string()
    &&& v[1] == Seq::<u8>::empty()
    &&& forall|i: int| 0 <= i < v.len() ==> no_nul(#[trigger] v[i])
    &&& forall|i: int, j: int| 1 <= i < v.len() && 1 <= j < v.len() && i != j ==> v[i] != v[j]
}

/// Whether some id from 1 on names `s`.
pub open spec fn holds(v: Seq<Seq<u8>>, s: Seq<u8>) -> bool {
    exists|i: int| 1 <= i < v.len() && v[i] == s
}

/// The id from 1 on that names `s`, when there is one.
pub open spec fn id_of(v: Seq<Seq<u8>>, s: Seq<u8>) -> int {
    choose|i: int| 1 <= i < v.len() && v[i] == s
}

/// What looking `s` up does, as a pair of the id handed back and the pool's
/// strings afterwards: the empty string is id 1; a string the pool holds is
/// its id; otherwise, when `create` is set, the string is added under the next
/// id, else the answer is 0 and the pool stays as it is.
pub open spec fn interned(v: Seq<Seq<u8>>, s: Seq<u8>, create: bool) -> (Id, Seq<Seq<u8>>) {
    if s.len() == 0 {
        (STRID_EMPTY, v)
    } else if holds(v, s) {
        (id_of(v, s) as Id, v)
    } else if create {
        (v.len() as Id, v.push(s))
    } else {
        (STRID_NULL, v)
    }
}

/// Whether `space` holds `s` at offset `off`, closed by a NUL byte.
pub open spec fn stored_at(space: Seq<u8>, off: int, s: Seq<u8>) -> bool {
    &&& 0 <= off
    &&& off + s.len() < space.len()
    &&& space.subrange(off, off + s.len()) == s
    &&& space[off + s.len()] == 0
}

/// A string pool.
pub struct Stringpool {
    strings: Vec<u32>,
    stringspace: Vec<u8>,
    contents: Ghost<Seq<Seq<u8>>>,
}

impl View for Stringpool {
    type V = Seq<Seq<u8>>;

    closed spec fn view(&self) -> Seq<Seq<u8>> {
        self.contents@
    }
}

/// Whether `a` and `b` hold the same bytes.
fn bytes_equal(a: &[u8], b: &[u8]) -> (r: bool)
    ensures
        r == (a@ == b@),
{
    if a.len() != b.len() {
        return false;
    }
    let n = a.len();
    let mut i: usize = 0;
    while i < n
        invariant
            n == a@.len(),
            n == b@.len(),
            0 <= i <= n,
            forall|k: int| 0 <= k < i ==> a@[k] == b@[k],
        decreases n - i,
    {
        if a[i] != b[i] {
            return false;
        }
        i = i + 1;
    }
    assert(a@ =~= b@);
    true
}

/// Whether the offsets `strings` and the byte space `space` hold the strings
/// `v` by id.
pub open spec fn laid_out(strings: Seq<u32>, space: Seq<u8>, v: Seq<Seq<u8>>) -> bool {
    &&& valid_pool(v)
    &&& strings.len() == v.len()
    &&& space.len() <= u32::MAX
    &&& forall|i: int| 0 <= i < v.len() ==> stored_at(space, #[trigger] strings[i] as int, v[i])
}

impl Stringpool {
    /// The pool's offsets and byte space hold its strings.
    #[verifier::type_invariant]
    closed spec fn wf(&self) -> bool {
        laid_out(self.strings@, self.stringspace@, self@)
    }

    /// The number of bytes the strings take, NUL bytes included.
    pub closed spec fn space_used(&self) -> nat {
        self.stringspace@.len()
    }

    /// The pool with `s` and a NUL byte appended to the byte space, named by
    /// the next id.
    fn append(self, s: &[u8]) -> (p: Stringpool)
        requires
            no_nul(s@),
            s@.len() > 0,
            !holds(self@, s@),
            self@.len() < i32::MAX,
            self.space_used() + s@.len() + 1 <= u32::MAX,
        ensures
            valid_pool(p@),
            p@ == self@.push(s@),
            p.space_used() == self.space_used() + s@.len() + 1,
    {
        proof {
            use_type_invariant(&self);
        }
        let ghost v = self@;
        let ghost old_strings = self.strings@;
        let ghost old_space = self.stringspace@;
        let Stringpool { mut strings, mut stringspace, contents } = self;
        let off = stringspace.len() as u32;
        let n = s.len();
        let mut i: usize = 0;
        while i < n
            invariant
                n == s@.len(),
                0 <= i <= n,
                stringspace@ == old_space + s@.take(i as int),
            decreases n - i,
        {
            stringspace.push(s[i]);
            assert(s@.take(i as int + 1) =~= s@.take(i as int).push(s@[i as int]));
            i = i + 1;
        }
        stringspace.push(0u8);
        strings.push(off);
        let ghost grown: Seq<Seq<u8>> = v.push(s@);
        assert(s@.take(n as int) =~= s@);
        let ghost space = stringspace@;
        assert(space == old_space + s@ + seq![0u8]);
        assert forall|i: int| 0 <= i < grown.len() implies stored_at(
            space,
            #[trigger] strings@[i] as int,
            grown[i],
        ) by {
            if i < v.len() {
                let o = strings@[i] as int;
                assert(strings@[i] == old_strings[i]);
                assert(stored_at(old_space, o, v[i]));
                assert(space.subrange(o, o + v[i].len()) =~= old_space.subrange(o, o + v[i].len()));
            } else {
                assert(space.subrange(off as int, off + s@.len()) =~= s@);
            }
        }
        assert forall|i: int, j: int|
            1 <= i < grown.len() && 1 <= j < grown.len() && i != j implies grown[i] != grown[j] by {
            if i == v.len() {
                assert(grown[j] == v[j]);
            } else if j == v.len() {
                assert(grown[i] == v[i]);
            }
        }
        assert forall|i: int| 0 <= i < grown.len() implies no_nul(#[trigger] grown[i]) by {
            if i < v.len() {
                assert(grown[i] == v[i]);
            }
        }
        let p = Stringpool { strings, stringspace, contents: Ghost(grown) };
        assert(laid_out(p.strings@, p.stringspace@, p@));
        p
    }

    /// An empty pool: id 0 names "<NULL>" and id 1 the empty string.
    pub fn init_empty() -> (p: Stringpool)
        ensures
            valid_pool(p@),
            p@ == seq![null_string(), Seq::<u8>::empty()],
            p.space_used() == 8,
    {
        let mut space: Vec<u8> = Vec::new();
        space.push(60u8);
        space.push(78u8);
        space.push(85u8);
        space.push(76u8);
        space.push(76u8);
        space.push(62u8);
        space.push(0u8);
        space.push(0u8);
        let mut strings: Vec<u32> = Vec::new();
        strings.push(0u32);
        strings.push(7u32);
        let ghost initial: Seq<Seq<u8>> = seq![null_string(), Seq::<u8>::empty()];
        let contents: Ghost<Seq<Seq<u8>>> = Ghost(initial);
        assert(space@.subrange(0, 6) =~= null_string());
        assert(space@.subrange(7, 7) =~= Seq::<u8>::empty());
        assert(stored_at(space@, strings@[0] as int, initial[0]));
        assert(stored_at(space@, strings@[1] as int, initial[1]));
        assert(laid_out(strings@, space@, initial));
        Stringpool { strings, stringspace: space, contents }
    }

    /// The number of strings in the pool, the two fixed ones included.
    pub fn nstrings(&self) -> (n: i32)
        ensures
            n == self@.len(),
    {
        proof {
            use_type_invariant(self);
        }
        self.strings.len() as i32
    }

    /// The number of bytes the strings take, NUL bytes included.
    pub fn sstrings(&self) -> (n: u32)
        ensures
            n == self.space_used(),
    {
        proof {
            use_type_invariant(self);
        }
        self.stringspace.len() as u32
    }

    /// The string that `id` names, without its closing NUL byte.
    pub fn id2str(&self, id: Id) -> (s: &[u8])
        requires
            0 <= id < self@.len(),
        ensures
            s@ == self@[id as int],
    {
        proof {
            use_type_invariant(self);
        }
        let off = self.strings[id as usize] as usize;
        let ghost target = self@[id as int];
        assert(stored_at(self.stringspace@, self.strings@[id as int] as int, target));
        let mut j: usize = off;
        while self.stringspace[j] != 0u8
            invariant
                off <= j <= off + target.len(),
                off + target.len() < self.stringspace@.len(),
                self.stringspace@.len() <= u32::MAX,
                self.stringspace@.subrange(off as int, off + target.len()) == target,
                self.stringspace@[off + target.len()] == 0,
                no_nul(target),
            decreases off + target.len() - j,
        {
            j = j + 1;
        }
        proof {
            if j < off + target.len() {
                assert(self.stringspace@[j as int] == target[j - off]);
            }
        }
        vstd::slice::slice_subrange(self.stringspace.as_slice(), off, j)
    }

    /// The id that names `s`: the empty string is id 1, a string the pool
    /// holds is its id, and otherwise `s` is added under the next id when
    /// `create` is set, while 0 comes back when it is not.
    pub fn str2id(&mut self, s: &[u8], create: bool) -> (id: Id)
        requires
            no_nul(s@),
            create && s@.len() > 0 && !holds(old(self)@, s@) ==> old(self)@.len() < i32::MAX
                && old(self).space_used() + s@.len() + 1 <= u32::MAX,
        ensures
            valid_pool(final(self)@),
            (id, final(self)@) == interned(old(self)@, s@, create),
            id != STRID_NULL ==> 0 <= id < final(self)@.len() && final(self)@[id as int] == s@,
            s@.len() > 0 && !create && !holds(old(self)@, s@) ==> id == STRID_NULL,
            final(self).space_used() == if create && s@.len() > 0 && !holds(old(self)@, s@) {
                old(self).space_used() + s@.len() + 1
            } else {
                old(self).space_used()
            },
    {
        proof {
            use_type_invariant(&*self);
        }
        if s.len() == 0 {
            return STRID_EMPTY;
        }
        let n = self.strings.len();
        let mut i: usize = 1;
        while i < n
            invariant
                valid_pool(self@),
                self@ == old(self)@,
                self.space_used() == old(self).space_used(),
                n == self@.len(),
                1 <= i <= n,
                s@.len() > 0,
                forall|k: int| 1 <= k < i ==> self@[k] != s@,
            decreases n - i,
        {
            let t = self.id2str(i as Id);
            if bytes_equal(t, s) {
                assert(holds(self@, s@));
                let ghost c = id_of(self@, s@);
                assert(c == i as int);
                return i as Id;
            }
            i = i + 1;
        }
        assert(!holds(self@, s@));
        if !create {
            return STRID_NULL;
        }
        let mut pool = Stringpool::init_empty();
        std::mem::swap(self, &mut pool);
        *self = pool.append(s);
        n as Id
    }
}

/// What the pool hands back for an id is what was interned under it: after
/// looking a string up with `create` set, its id names that very string.
pub proof fn law_str2id_then_id2str(v: Seq<Seq<u8>>, s: Seq<u8>)
    requires
        valid_pool(v),
        no_nul(s),
    ensures
        0 <= interned(v, s, true).0 < interned(v, s, true).1.len(),
        interned(v, s, true).1[interned(v, s, true).0 as int] == s,
{
    if s.len() > 0 && holds(v, s) {
        let c = id_of(v, s);
        assert(1 <= c < v.len() && v[c] == s);
    }
}

/// Interning is idempotent: looking a string up again, with or without
/// `create`, gives the same id and leaves the pool as it is.
pub proof fn law_str2id_stable(v: Seq<Seq<u8>>, s: Seq<u8>, create: bool)
    requires
        valid_pool(v),
        v.len() < i32::MAX,
        no_nul(s),
    ensures
        valid_pool(interned(v, s, true).1),
        interned(interned(v, s, true).1, s, create) == interned(v, s, true),
{
    let (id, w) = interned(v, s, true);
    if s.len() == 0 {
    } else if holds(v, s) {
        let c = id_of(v, s);
        assert(1 <= c < v.len() && v[c] == s);
    } else {
        assert(w[v.len() as int] == s);
        assert(holds(w, s));
        let c = id_of(w, s);
        assert(1 <= c < w.len() && w[c] == s);
        if c != v.len() {
            assert(v[c] == s);
            assert(false);
        }
        assert forall|i: int| 0 <= i < w.len() implies no_nul(#[trigger] w[i]) by {
            if i < v.len() {
                assert(w[i] == v[i]);
            }
        }
        assert forall|i: int, j: int| 1 <= i < w.len() && 1 <= j < w.len() && i != j implies w[i]
            != w[j] by {
            if i == v.len() {
                assert(w[j] == v[j]);
                if w[j] == s {
                    assert(holds(v, s));
                }
            } else if j == v.len() {
                assert(w[i] == v[i]);
                if w[i] == s {
                    assert(holds(v, s));
                }
            }
        }
    }
}

/// A lookup finds only the exact string: whatever nonzero id it hands back,
/// with or without `create`, names `s` itself; a non-empty string the pool
/// does not hold gives 0 and leaves the pool as it is when `create` is not
/// set; and the pool only ever grows by `s` at the end.
pub proof fn law_str2id_exact(v: Seq<Seq<u8>>, s: Seq<u8>, create: bool)
    requires
        valid_pool(v),
        no_nul(s),
    ensures
        interned(v, s, create).0 != STRID_NULL ==> 0 <= interned(v, s, create).0 < interned(
            v,
            s,
            create,
        ).1.len() && interned(v, s, create).1[interned(v, s, create).0 as int] == s,
        s.len() > 0 && !create && !holds(v, s) ==> interned(v, s, create) == (STRID_NULL, v),
        holds(v, s) ==> interned(v, s, create).1 == v,
        interned(v, s, create).1 == v || interned(v, s, create).1 == v.push(s),
{
    if s.len() > 0 && holds(v, s) {
        let c = id_of(v, s);
        assert(1 <= c < v.len() && v[c] == s);
    }
    if holds(v, s) && s.len() == 0 {
        let w = choose|i: int| 1 <= i < v.len() && v[i] == s;
        assert(v[w] == v[1]);
    }
}

/// Distinct strings get distinct ids: two strings the pool holds from id 1 on
/// are equal only when their ids are.
pub proof fn law_ids_distinct(v: Seq<Seq<u8>>, i: int, j: int)
    requires
        valid_pool(v),
        1 <= i < v.len(),
        1 <= j < v.len(),
        v[i] == v[j],
    ensures
        i == j,
{
}

} // verus!
