//! The repository data layer as callers see it: the reference given to load
//! callbacks, the ids and flags that address repository data, which match a
//! metadata search settles on, and whether a repository's data are ready for
//! file provides.
use vstd::prelude::*;

use crate::Id;

verus! {

/// What a load callback is handed: the repository data about to be loaded.
pub struct RepoDataRef {}

/// The search flag that asks for an exact string match.
pub const SEARCH_STRING: Id = 1;

/// The pseudo solvable that stands for a repository's meta data.
pub const SOLVID_META: Id = -1;

/// The pseudo solvable that stands for the current data position.
pub const SOLVID_POS: Id = -2;

/// Which of a run of repository metadata matches a search settles on, given
/// each match's location and checksum: the first match that has a location,
/// or else the last match, or nothing when there was no match.
pub open spec fn settled<L, C>(matches: Seq<(Option<L>, Option<C>)>) -> (Option<L>, Option<C>)
    decreases matches.len(),
{
    if matches.len() == 0 {
        (None, None)
    } else if matches[0].0 is Some || matches.len() == 1 {
        matches[0]
    } else {
        settled(matches.drop_first())
    }
}

/// A search settles on the first match that has a location: when match `i`
/// has one and no match before it does, the search settles on match `i`.
pub proof fn law_settled_is_first_located<L, C>(matches: Seq<(Option<L>, Option<C>)>, i: int)
    requires
        0 <= i < matches.len(),
        matches[i].0 is Some,
        forall|j: int| 0 <= j < i ==> matches[j].0 is None,
    ensures
        settled(matches) == matches[i],
    decreases i,
{
    if i > 0 {
        let rest = matches.drop_first();
        assert forall|j: int| 0 <= j < i - 1 implies rest[j].0 is None by {
            assert(rest[j] == matches[j + 1]);
        }
        assert(matches[0].0 is None);
        law_settled_is_first_located(rest, i - 1);
    }
}

/// A search where no match has a location settles on the last match, and a
/// search with no match at all settles on nothing.
pub proof fn law_settled_without_location<L, C>(matches: Seq<(Option<L>, Option<C>)>)
    requires
        forall|j: int| 0 <= j < matches.len() ==> matches[j].0 is None,
    ensures
        matches.len() > 0 ==> settled(matches) == matches.last(),
        matches.len() == 0 ==> settled(matches) == (None::<L>, None::<C>),
    decreases matches.len(),
{
    if matches.len() > 1 {
        let rest = matches.drop_first();
        assert forall|j: int| 0 <= j < rest.len() implies rest[j].0 is None by {
            assert(rest[j] == matches[j + 1]);
        }
        law_settled_without_location(rest);
        assert(rest.last() == matches.last());
    }
}

/// One step of a search through repository metadata: given what the search
/// has settled on so far and the location and checksum of the next match, the
/// search settles on that match, and stops when it has a location.
pub fn find_step<L, C>(decided: (Option<L>, Option<C>), next: (Option<L>, Option<C>)) -> (r: (
    (Option<L>, Option<C>),
    bool,
))
    ensures
        r.0 == next,
        r.1 == next.0 is Some,
{
    let stop = next.0.is_some();
    (next, stop)
}

/// Walks the matches of a search through repository metadata in order, a
/// step at a time, and stops at the first one that has a location; hands back
/// the location and checksum of the match it stopped at, or of the last one.
pub fn find<L, C>(matches: Vec<(Option<L>, Option<C>)>) -> (r: (Option<L>, Option<C>))
    ensures
        r == settled(matches@),
{
    let ghost all = matches@;
    let mut rest = matches;
    let mut last: (Option<L>, Option<C>) = (None, None);
    while rest.len() > 0
        invariant
            all == matches@,
            settled(all) == (if rest@.len() == 0 {
                last
            } else {
                settled(rest@)
            }),
        decreases rest@.len(),
    {
        let ghost before = rest@;
        let m = rest.remove(0);
        assert(rest@ =~= before.drop_first());
        let (decided, stop) = find_step(last, m);
        if stop {
            return decided;
        }
        last = decided;
    }
    last
}

/// Where a search that has settled on `decided` ends when it steps through
/// `matches` with `find_step`, stopping at the first match with a location.
pub open spec fn walked<L, C>(decided: (Option<L>, Option<C>), matches: Seq<(Option<L>, Option<C>)>) -> (
    Option<L>,
    Option<C>,
)
    decreases matches.len(),
{
    if matches.len() == 0 {
        decided
    } else if matches[0].0 is Some {
        matches[0]
    } else {
        walked(matches[0], matches.drop_first())
    }
}

/// Stepping through the matches of a search one at a time with `find_step`,
/// from nothing, ends where `find` settles.
pub proof fn law_steps_settle<L, C>(matches: Seq<(Option<L>, Option<C>)>)
    ensures
        walked((None, None), matches) == settled(matches),
{
    lemma_walked_settles((None, None), matches);
}

proof fn lemma_walked_settles<L, C>(decided: (Option<L>, Option<C>), ms: Seq<(Option<L>, Option<C>)>)
    ensures
        ms.len() > 0 ==> walked(decided, ms) == settled(ms),
        ms.len() == 0 ==> walked(decided, ms) == decided,
    decreases ms.len(),
{
    if ms.len() > 0 && ms[0].0 is None {
        lemma_walked_settles(ms[0], ms.drop_first());
    }
}

/// What checking a repository's data for file provides finds, in the order
/// the checks are made.
#[derive(PartialEq, Eq, Structural, Debug)]
pub enum ProvidesCheck {
    /// The repository has no solvables.
    NoSolvables,
    /// The repository has fewer than two solvables.
    TooFewSolvables,
    /// The first repository data already has a load callback.
    FirstHasLoadCallback,
    /// The repository data with this id has no load callback.
    NoLoadCallback(i32),
    /// Every repository data from id 2 on has a load callback.
    AllHaveLoadCallbacks,
}

/// The first id from 2 below `n` whose flag is unset, if any.
pub open spec fn first_unset(flags: Seq<bool>, n: int) -> Option<int> {
    if exists|i: int| 2 <= i < n && !flags[i] {
        Some(choose|i: int| 2 <= i < n && !flags[i] && forall|j: int| 2 <= j < i ==> flags[j])
    } else {
        None
    }
}

/// What `updateaddedprovides` finds for a repository with `nsolvables`
/// solvables whose repository data have a load callback where `flags` is set.
pub open spec fn provides_check(nsolvables: int, flags: Seq<bool>) -> ProvidesCheck {
    if nsolvables == 0 {
        ProvidesCheck::NoSolvables
    } else if nsolvables < 2 {
        ProvidesCheck::TooFewSolvables
    } else if flags[1] {
        ProvidesCheck::FirstHasLoadCallback
    } else {
        match first_unset(flags, nsolvables) {
            Some(i) => ProvidesCheck::NoLoadCallback(i as i32),
            None => ProvidesCheck::AllHaveLoadCallbacks,
        }
    }
}

/// Where some flag from id 2 below `n` is unset, there is a first such id.
proof fn lemma_first_unset_exists(flags: Seq<bool>, n: int, w: int)
    requires
        2 <= w < n,
        !flags[w],
    ensures
        exists|i: int| 2 <= i < n && !flags[i] && forall|j: int| 2 <= j < i ==> flags[j],
    decreases w,
{
    if exists|j: int| 2 <= j < w && !flags[j] {
        let j = choose|j: int| 2 <= j < w && !flags[j];
        lemma_first_unset_exists(flags, n, j);
    } else {
        assert(2 <= w < n && !flags[w] && forall|j: int| 2 <= j < w ==> flags[j]);
    }
}

/// What the file-provides check reports is true of the repository: it reports
/// no solvables only for a count of 0, too few only for a count of 1 or less,
/// a load callback on the first data only when its flag is set; past those,
/// it names the first id from 2 on whose data have no load callback, and it
/// reports that all have one only when every id from 2 below the count does.
pub proof fn law_provides_check_truthful(nsolvables: int, flags: Seq<bool>)
    requires
        nsolvables <= i32::MAX,
        nsolvables >= 2 ==> flags.len() >= nsolvables,
    ensures
        provides_check(nsolvables, flags) == ProvidesCheck::NoSolvables <==> nsolvables == 0,
        provides_check(nsolvables, flags) == ProvidesCheck::TooFewSolvables <==> nsolvables != 0
            && nsolvables < 2,
        provides_check(nsolvables, flags) == ProvidesCheck::FirstHasLoadCallback <==> nsolvables
            >= 2 && flags[1],
        provides_check(nsolvables, flags) == ProvidesCheck::AllHaveLoadCallbacks <==> nsolvables
            >= 2 && !flags[1] && forall|i: int| 2 <= i < nsolvables ==> flags[i],
        match provides_check(nsolvables, flags) {
            ProvidesCheck::NoLoadCallback(i) => nsolvables >= 2 && !flags[1] && 2 <= i < nsolvables
                && !flags[i as int] && forall|j: int| 2 <= j < i ==> flags[j],
            _ => true,
        },
{
    if nsolvables >= 2 && !flags[1] && exists|i: int| 2 <= i < nsolvables && !flags[i] {
        let w = choose|i: int| 2 <= i < nsolvables && !flags[i];
        lemma_first_unset_exists(flags, nsolvables, w);
        let c = choose|i: int|
            2 <= i < nsolvables && !flags[i] && forall|j: int| 2 <= j < i ==> flags[j];
        assert(c as i32 == c);
        assert(provides_check(nsolvables, flags) == ProvidesCheck::NoLoadCallback(c as i32));
    }
}

/// Checks whether a repository's data are ready for file provides to be
/// added: `nsolvables` is the repository's solvable count and `flags[i]`
/// tells whether the repository data with id `i` has a load callback.
pub fn updateaddedprovides(nsolvables: i32, flags: &[bool]) -> (r: ProvidesCheck)
    requires
        nsolvables >= 2 ==> flags@.len() >= nsolvables,
    ensures
        r == provides_check(nsolvables as int, flags@),
{
    if nsolvables == 0 {
        return ProvidesCheck::NoSolvables;
    }
    if nsolvables < 2 {
        return ProvidesCheck::TooFewSolvables;
    }
    if flags[1] {
        return ProvidesCheck::FirstHasLoadCallback;
    }
    let mut i: i32 = 2;
    while i < nsolvables
        invariant
            2 <= i <= nsolvables,
            flags@.len() >= nsolvables,
            !flags@[1],
            forall|j: int| 2 <= j < i ==> flags@[j],
        decreases nsolvables - i,
    {
        if !flags[i as usize] {
            let ghost c = choose|c: int| 2 <= c < nsolvables && !flags@[c] && forall|j: int| 2 <= j < c ==> flags@[j];
            assert(2 <= i < nsolvables && !flags@[i as int] && forall|j: int| 2 <= j < i ==> flags@[j]);
            assert(c == i as int) by {
                if c < i {
                } else if c > i {
                }
            }
            assert(first_unset(flags@, nsolvables as int) == Some(i as int));
            return ProvidesCheck::NoLoadCallback(i);
        }
        i = i + 1;
    }
    ProvidesCheck::AllHaveLoadCallbacks
}

} // verus!
