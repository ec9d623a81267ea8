//! The order in which episodes are presented: ascending by number,
//! episodes with one number in the order in which they were found.

use vstd::prelude::*;
use vstd::multiset::Multiset;
use vstd::seq_lib::{to_multiset_insert, to_multiset_remove};
use crate::records::{spec_episode_views, Episode, EpisodeView};
use crate::unique::spec_distinct_ids;

verus! {

/// Tells whether no episode of `s` has a greater number than a later one.
pub open spec fn spec_ascending(s: Seq<EpisodeView>) -> bool {
    forall|i: int, j: int| 0 <= i < j < s.len() ==> s[i].number <= s[j].number
}

/// Tells whether each episode of `s` has a smaller number than every later one.
pub open spec fn spec_strictly_ascending(s: Seq<EpisodeView>) -> bool {
    forall|i: int, j: int| 0 <= i < j < s.len() ==> s[i].number < s[j].number
}

/// Tells whether no two episodes of `s` share a number.
pub open spec fn spec_distinct_numbers(s: Seq<EpisodeView>) -> bool {
    forall|i: int, j: int| 0 <= i < j < s.len() ==> s[i].number != s[j].number
}

/// Where an episode numbered `n` goes in `acc`: behind the last episode
/// whose number is not greater.
pub open spec fn spec_insert_index(acc: Seq<EpisodeView>, n: u32) -> int
    decreases acc.len(),
{
    if acc.len() == 0 {
        0
    } else if acc.last().number <= n {
        acc.len() as int
    } else {
        spec_insert_index(acc.drop_last(), n)
    }
}

/// `acc` with `e` put in at its place.
pub open spec fn spec_insert(acc: Seq<EpisodeView>, e: EpisodeView) -> Seq<EpisodeView> {
    acc.insert(spec_insert_index(acc, e.number), e)
}

/// `acc` with the episodes of `rest` put in one by one, first to last.
pub open spec fn spec_sort_into(acc: Seq<EpisodeView>, rest: Seq<EpisodeView>) -> Seq<EpisodeView>
    decreases rest.len(),
{
    if rest.len() == 0 {
        acc
    } else {
        spec_sort_into(spec_insert(acc, rest[0]), rest.drop_first())
    }
}

/// The episodes of `s` in ascending order of number.
pub open spec fn spec_sorted(s: Seq<EpisodeView>) -> Seq<EpisodeView> {
    spec_sort_into(Seq::empty(), s)
}

/// The episodes of `s`, last to first.
pub open spec fn spec_reversed(s: Seq<EpisodeView>) -> Seq<EpisodeView> {
    Seq::new(s.len(), |i: int| s[s.len() - 1 - i])
}

/// The order of presentation: ascending by number, after the page's own
/// order was turned round where the page lists the newest episode first.
pub open spec fn spec_presented(s: Seq<EpisodeView>, newest_first: bool) -> Seq<EpisodeView> {
    if newest_first {
        spec_sorted(spec_reversed(s))
    } else {
        spec_sorted(s)
    }
}

/// In an ascending sequence the place of a new number has only numbers
/// that are not greater before it and only greater ones from it on.
pub proof fn lemma_insert_index(acc: Seq<EpisodeView>, n: u32)
    requires
        spec_ascending(acc),
    ensures
        0 <= spec_insert_index(acc, n) <= acc.len(),
        forall|k: int| 0 <= k < spec_insert_index(acc, n) ==> acc[k].number <= n,
        forall|k: int| spec_insert_index(acc, n) <= k < acc.len() ==> acc[k].number > n,
    decreases acc.len(),
{
    if acc.len() > 0 && acc.last().number > n {
        let front = acc.drop_last();
        assert forall|i: int, j: int| 0 <= i < j < front.len() implies front[i].number
            <= front[j].number by {
            assert(front[i] == acc[i] && front[j] == acc[j]);
        }
        lemma_insert_index(front, n);
        assert forall|k: int| 0 <= k < spec_insert_index(acc, n) implies acc[k].number <= n by {
            assert(acc[k] == front[k]);
        }
        assert forall|k: int| spec_insert_index(acc, n) <= k < acc.len() implies acc[k].number
            > n by {
            if k < front.len() {
                assert(acc[k] == front[k]);
            }
        }
    } else if acc.len() > 0 {
        assert forall|k: int| 0 <= k < acc.len() implies acc[k].number <= n by {
            if k < acc.len() - 1 {
                assert(acc[k].number <= acc[acc.len() - 1].number);
            }
        }
    }
}

/// Putting an episode in at its place keeps an ascending sequence ascending.
pub proof fn lemma_insert_ascending(acc: Seq<EpisodeView>, e: EpisodeView)
    requires
        spec_ascending(acc),
    ensures
        spec_ascending(spec_insert(acc, e)),
{
    lemma_insert_index(acc, e.number);
    let at = spec_insert_index(acc, e.number);
    let out = spec_insert(acc, e);
    assert forall|i: int, j: int| 0 <= i < j < out.len() implies out[i].number
        <= out[j].number by {
        if i < at && j > at {
            assert(acc[i].number <= acc[j - 1].number || i == j - 1);
        } else if i > at {
            assert(acc[i - 1].number <= acc[j - 1].number);
        } else if j < at {
            assert(acc[i].number <= acc[j].number);
        }
    }
}

/// Putting an episode whose number is new in at its place keeps a strictly
/// ascending sequence strictly ascending.
pub proof fn lemma_insert_strict(acc: Seq<EpisodeView>, e: EpisodeView)
    requires
        spec_strictly_ascending(acc),
        forall|k: int| 0 <= k < acc.len() ==> acc[k].number != e.number,
    ensures
        spec_strictly_ascending(spec_insert(acc, e)),
{
    assert(spec_ascending(acc)) by {
        assert forall|i: int, j: int| 0 <= i < j < acc.len() implies acc[i].number
            <= acc[j].number by {
            assert(acc[i].number < acc[j].number);
        }
    }
    lemma_insert_index(acc, e.number);
    let at = spec_insert_index(acc, e.number);
    let out = spec_insert(acc, e);
    assert forall|i: int, j: int| 0 <= i < j < out.len() implies out[i].number
        < out[j].number by {
        if i < at && j > at {
            assert(acc[i].number < acc[j - 1].number || i == j - 1);
        } else if i > at {
            assert(acc[i - 1].number < acc[j - 1].number);
        } else if j < at {
            assert(acc[i].number < acc[j].number);
        }
    }
}

/// Sorting into an ascending sequence gives an ascending sequence that
/// holds what the two held, each episode as often as before.
pub proof fn lemma_sort_into(acc: Seq<EpisodeView>, rest: Seq<EpisodeView>)
    requires
        spec_ascending(acc),
    ensures
        spec_ascending(spec_sort_into(acc, rest)),
        spec_sort_into(acc, rest).to_multiset() =~= acc.to_multiset().add(rest.to_multiset()),
        spec_sort_into(acc, rest).len() == acc.len() + rest.len(),
    decreases rest.len(),
{
    broadcast use vstd::multiset::group_multiset_axioms;

    if rest.len() == 0 {
        assert(rest.to_multiset() =~= Multiset::<EpisodeView>::empty()) by {
            rest.to_multiset_ensures();
        }
    } else {
        let next = spec_insert(acc, rest[0]);
        lemma_insert_index(acc, rest[0].number);
        lemma_insert_ascending(acc, rest[0]);
        lemma_sort_into(next, rest.drop_first());
        to_multiset_insert(acc, spec_insert_index(acc, rest[0].number), rest[0]);
        to_multiset_remove(rest, 0);
        assert(rest.remove(0) =~= rest.drop_first());
        rest.to_multiset_ensures();
        assert(rest.to_multiset().count(rest[0]) > 0);
        assert(next.to_multiset().add(rest.drop_first().to_multiset()) =~= acc.to_multiset().add(
            rest.to_multiset(),
        ));
    }
}

/// Sorting episodes with distinct numbers into a strictly ascending
/// sequence that holds none of those numbers gives a strictly ascending one.
pub proof fn lemma_sort_into_strict(acc: Seq<EpisodeView>, rest: Seq<EpisodeView>)
    requires
        spec_strictly_ascending(acc),
        spec_distinct_numbers(rest),
        forall|i: int, j: int|
            0 <= i < acc.len() && 0 <= j < rest.len() ==> acc[i].number != rest[j].number,
    ensures
        spec_strictly_ascending(spec_sort_into(acc, rest)),
    decreases rest.len(),
{
    if rest.len() > 0 {
        let e = rest[0];
        let next = spec_insert(acc, e);
        let tail = rest.drop_first();
        assert(spec_ascending(acc)) by {
            assert forall|i: int, j: int| 0 <= i < j < acc.len() implies acc[i].number
                <= acc[j].number by {
                assert(acc[i].number < acc[j].number);
            }
        }
        lemma_insert_index(acc, e.number);
        lemma_insert_strict(acc, e);
        let at = spec_insert_index(acc, e.number);
        assert forall|i: int, j: int| 0 <= i < j < tail.len() implies tail[i].number
            != tail[j].number by {
            assert(rest[i + 1].number != rest[j + 1].number);
        }
        assert forall|i: int, j: int| 0 <= i < next.len() && 0 <= j < tail.len() implies next[i].number
            != tail[j].number by {
            if i < at {
                assert(acc[i].number != rest[j + 1].number);
            } else if i == at {
                assert(rest[0].number != rest[j + 1].number);
            } else {
                assert(acc[i - 1].number != rest[j + 1].number);
            }
        }
        lemma_sort_into_strict(next, tail);
    }
}

/// Sorted episodes are ascending by number, and they are the episodes
/// that were given, each as often as before.
pub proof fn lemma_sorted_is_ascending_permutation(s: Seq<EpisodeView>)
    ensures
        spec_ascending(spec_sorted(s)),
        spec_sorted(s).to_multiset() =~= s.to_multiset(),
        spec_sorted(s).len() == s.len(),
{
    broadcast use vstd::multiset::group_multiset_axioms;

    let none = Seq::<EpisodeView>::empty();
    lemma_sort_into(none, s);
    none.to_multiset_ensures();
    assert(none.to_multiset() =~= Multiset::<EpisodeView>::empty());
}

/// Episodes with distinct numbers, in whatever order they are given, come
/// out strictly ascending by number.
pub proof fn lemma_distinct_numbers_sort_strictly(s: Seq<EpisodeView>, newest_first: bool)
    requires
        spec_distinct_numbers(s),
    ensures
        spec_strictly_ascending(spec_sorted(s)),
        spec_strictly_ascending(spec_presented(s, newest_first)),
{
    lemma_sort_into_strict(Seq::empty(), s);
    let r = spec_reversed(s);
    assert forall|i: int, j: int| 0 <= i < j < r.len() implies r[i].number != r[j].number by {
        assert(s[s.len() - 1 - j].number != s[s.len() - 1 - i].number);
    }
    lemma_sort_into_strict(Seq::empty(), r);
}

/// Sorting episodes with distinct slugs into a sequence with distinct
/// slugs, none of which they have, gives a sequence with distinct slugs.
pub proof fn lemma_sort_into_distinct_ids(acc: Seq<EpisodeView>, rest: Seq<EpisodeView>)
    requires
        spec_ascending(acc),
        spec_distinct_ids(acc),
        spec_distinct_ids(rest),
        forall|i: int, j: int|
            0 <= i < acc.len() && 0 <= j < rest.len() ==> acc[i].id != rest[j].id,
    ensures
        spec_distinct_ids(spec_sort_into(acc, rest)),
    decreases rest.len(),
{
    if rest.len() > 0 {
        let e = rest[0];
        let next = spec_insert(acc, e);
        let tail = rest.drop_first();
        lemma_insert_index(acc, e.number);
        lemma_insert_ascending(acc, e);
        let at = spec_insert_index(acc, e.number);
        assert forall|i: int, j: int| 0 <= i < j < next.len() implies next[i].id
            != next[j].id by {
            if i == at {
                assert(acc[j - 1].id != rest[0].id);
            } else if j == at {
                assert(acc[i].id != rest[0].id);
            } else {
                let a = if i < at { i } else { i - 1 };
                let b = if j < at { j } else { j - 1 };
                assert(acc[a].id != acc[b].id);
            }
        }
        assert forall|i: int, j: int| 0 <= i < j < tail.len() implies tail[i].id
            != tail[j].id by {
            assert(rest[i + 1].id != rest[j + 1].id);
        }
        assert forall|i: int, j: int| 0 <= i < next.len() && 0 <= j < tail.len() implies next[i].id
            != tail[j].id by {
            if i < at {
                assert(acc[i].id != rest[j + 1].id);
            } else if i == at {
                assert(rest[0].id != rest[j + 1].id);
            } else {
                assert(acc[i - 1].id != rest[j + 1].id);
            }
        }
        lemma_sort_into_distinct_ids(next, tail);
    }
}

/// Episodes with distinct slugs have distinct slugs in the order of
/// presentation too.
pub proof fn lemma_presented_distinct_ids(s: Seq<EpisodeView>, newest_first: bool)
    requires
        spec_distinct_ids(s),
    ensures
        spec_distinct_ids(spec_presented(s, newest_first)),
{
    lemma_sort_into_distinct_ids(Seq::empty(), s);
    let r = spec_reversed(s);
    assert forall|i: int, j: int| 0 <= i < j < r.len() implies r[i].id != r[j].id by {
        assert(s[s.len() - 1 - j].id != s[s.len() - 1 - i].id);
    }
    lemma_sort_into_distinct_ids(Seq::empty(), r);
}

/// The episodes of `s` that have the number `n`, in the order of `s`.
pub open spec fn spec_numbered(s: Seq<EpisodeView>, n: u32) -> Seq<EpisodeView>
    decreases s.len(),
{
    if s.len() == 0 {
        Seq::empty()
    } else if s.last().number == n {
        spec_numbered(s.drop_last(), n).push(s.last())
    } else {
        spec_numbered(s.drop_last(), n)
    }
}

/// Of two sequences joined, the episodes numbered `n` are those of the
/// first followed by those of the second.
pub proof fn lemma_numbered_add(a: Seq<EpisodeView>, b: Seq<EpisodeView>, n: u32)
    ensures
        spec_numbered(a + b, n) == spec_numbered(a, n) + spec_numbered(b, n),
    decreases b.len(),
{
    if b.len() == 0 {
        assert(a + b =~= a);
        assert(spec_numbered(a, n) + spec_numbered(b, n) =~= spec_numbered(a, n));
    } else {
        lemma_numbered_add(a, b.drop_last(), n);
        assert((a + b).drop_last() =~= a + b.drop_last());
        assert((a + b).last() == b.last());
        if b.last().number == n {
            assert(spec_numbered(a + b, n) =~= spec_numbered(a, n) + spec_numbered(b, n));
        }
    }
}

/// A sequence without an episode numbered `n` gives none.
pub proof fn lemma_numbered_none(s: Seq<EpisodeView>, n: u32)
    requires
        forall|k: int| 0 <= k < s.len() ==> (#[trigger] s[k]).number != n,
    ensures
        spec_numbered(s, n) == Seq::<EpisodeView>::empty(),
    decreases s.len(),
{
    if s.len() > 0 {
        assert forall|k: int| 0 <= k < s.drop_last().len() implies (#[trigger] s.drop_last()[k]).number
            != n by {
            assert(s.drop_last()[k] == s[k]);
        }
        lemma_numbered_none(s.drop_last(), n);
        assert(s[s.len() - 1].number != n);
    }
}

/// An episode put in at its place comes behind the episodes of its number
/// that were there, and changes nothing among those of another number.
pub proof fn lemma_numbered_insert(acc: Seq<EpisodeView>, e: EpisodeView, n: u32)
    requires
        spec_ascending(acc),
    ensures
        spec_numbered(spec_insert(acc, e), n) == if e.number == n {
            spec_numbered(acc, n).push(e)
        } else {
            spec_numbered(acc, n)
        },
{
    lemma_insert_index(acc, e.number);
    let at = spec_insert_index(acc, e.number);
    let front = acc.subrange(0, at);
    let back = acc.subrange(at, acc.len() as int);
    assert(acc =~= front + back);
    assert(spec_insert(acc, e) =~= front.push(e) + back);
    lemma_numbered_add(front, back, n);
    lemma_numbered_add(front.push(e), back, n);
    assert(front.push(e).drop_last() =~= front);
    assert(front.push(e).last() == e);
    if e.number == n {
        assert forall|k: int| 0 <= k < back.len() implies (#[trigger] back[k]).number != n by {
            assert(back[k] == acc[at + k]);
        }
        lemma_numbered_none(back, n);
        assert(spec_numbered(front, n).push(e) + Seq::<EpisodeView>::empty() =~= (spec_numbered(
            front,
            n,
        ) + Seq::<EpisodeView>::empty()).push(e));
    }
}

/// Sorting into an ascending sequence puts, for each number, the new
/// episodes of that number behind those that were there, in their order.
pub proof fn lemma_sort_into_numbered(acc: Seq<EpisodeView>, rest: Seq<EpisodeView>, n: u32)
    requires
        spec_ascending(acc),
    ensures
        spec_numbered(spec_sort_into(acc, rest), n) == spec_numbered(acc, n) + spec_numbered(
            rest,
            n,
        ),
    decreases rest.len(),
{
    if rest.len() == 0 {
        assert(spec_numbered(acc, n) + spec_numbered(rest, n) =~= spec_numbered(acc, n));
    } else {
        let e = rest[0];
        let next = spec_insert(acc, e);
        let tail = rest.drop_first();
        lemma_insert_ascending(acc, e);
        lemma_sort_into_numbered(next, tail, n);
        lemma_numbered_insert(acc, e, n);
        let one = seq![e];
        assert(rest =~= one + tail);
        lemma_numbered_add(one, tail, n);
        assert(one.drop_last() =~= Seq::<EpisodeView>::empty());
        assert(spec_numbered(one.drop_last(), n) =~= Seq::<EpisodeView>::empty());
        assert(one.last() == e);
        if e.number == n {
            assert(spec_numbered(one, n) =~= seq![e]);
            assert(spec_numbered(acc, n).push(e) + spec_numbered(tail, n) =~= spec_numbered(
                acc,
                n,
            ) + (seq![e] + spec_numbered(tail, n)));
        } else {
            assert(spec_numbered(one, n) =~= Seq::<EpisodeView>::empty());
            assert(Seq::<EpisodeView>::empty() + spec_numbered(tail, n) =~= spec_numbered(
                tail,
                n,
            ));
        }
    }
}

/// Sorting is stable: the episodes of one number come out in the order in
/// which they were given.
pub proof fn lemma_sorted_is_stable(s: Seq<EpisodeView>, n: u32)
    ensures
        spec_numbered(spec_sorted(s), n) == spec_numbered(s, n),
{
    lemma_sort_into_numbered(Seq::empty(), s, n);
    assert(Seq::<EpisodeView>::empty() + spec_numbered(s, n) =~= spec_numbered(s, n));
}

/// Where an episode numbered `n` goes in `acc`.
pub fn insert_index(acc: &Vec<Episode>, n: u32) -> (r: usize)
    ensures
        r == spec_insert_index(spec_episode_views(acc@), n),
        r <= acc.len(),
{
    let ghost views = spec_episode_views(acc@);
    let mut i: usize = acc.len();
    proof {
        assert(views.subrange(0, acc.len() as int) =~= views);
    }
    while i > 0 && acc[i - 1].number > n
        invariant
            i <= acc.len(),
            views == spec_episode_views(acc@),
            spec_insert_index(views, n) == spec_insert_index(views.subrange(0, i as int), n),
        decreases i,
    {
        proof {
            assert(views.subrange(0, i as int).drop_last() =~= views.subrange(0, i - 1));
            assert(views.subrange(0, i as int).last() == acc@[i - 1]@);
        }
        i -= 1;
    }
    proof {
        if i > 0 {
            assert(views.subrange(0, i as int).last() == acc@[i - 1]@);
        }
    }
    i
}

/// Sorts episodes ascending by number; episodes with one number keep the
/// order in which they were given.
pub fn sort_episodes(episodes: Vec<Episode>) -> (out: Vec<Episode>)
    ensures
        spec_episode_views(out@) == spec_sorted(spec_episode_views(episodes@)),
        spec_ascending(spec_episode_views(out@)),
        spec_episode_views(out@).to_multiset() == spec_episode_views(episodes@).to_multiset(),
        out@.len() == episodes@.len(),
{
    let mut rest: Vec<Episode> = episodes;
    let mut out: Vec<Episode> = Vec::new();
    proof {
        assert(spec_episode_views(out@) =~= Seq::<EpisodeView>::empty());
    }
    while rest.len() > 0
        invariant
            spec_sort_into(spec_episode_views(out@), spec_episode_views(rest@)) == spec_sorted(
                spec_episode_views(episodes@),
            ),
        decreases rest.len(),
    {
        let ghost rest_before = spec_episode_views(rest@);
        let ghost out_before = spec_episode_views(out@);
        let e: Episode = rest.remove(0);
        let at: usize = insert_index(&out, e.number);
        proof {
            assert(spec_episode_views(rest@) =~= rest_before.drop_first());
            assert(e@ == rest_before[0]);
        }
        out.insert(at, e);
        proof {
            assert(spec_episode_views(out@) =~= out_before.insert(at as int, e@));
        }
    }
    proof {
        lemma_sorted_is_ascending_permutation(spec_episode_views(episodes@));
    }
    out
}

/// Turns the order of the episodes round.
pub fn reverse_episodes(episodes: Vec<Episode>) -> (out: Vec<Episode>)
    ensures
        spec_episode_views(out@) == spec_reversed(spec_episode_views(episodes@)),
{
    let mut rest: Vec<Episode> = episodes;
    let mut out: Vec<Episode> = Vec::new();
    let ghost n = episodes@.len();
    while rest.len() > 0
        invariant
            n == episodes@.len(),
            rest@.len() + out@.len() == n,
            rest@ == episodes@.subrange(0, rest@.len() as int),
            forall|k: int| 0 <= k < out@.len() ==> out@[k] == episodes@[n - 1 - k],
        decreases rest.len(),
    {
        let e: Option<Episode> = rest.pop();
        match e {
            Some(e) => {
                out.push(e);
            },
            None => {},
        }
    }
    proof {
        assert(spec_episode_views(out@) =~= spec_reversed(spec_episode_views(episodes@)));
    }
    out
}

/// Puts episodes in the order of presentation: ascending by number. Where
/// the page lists the newest episode first, its order is turned round
/// before, so that episodes with one number come out oldest first.
pub fn present_episodes(episodes: Vec<Episode>, newest_first: bool) -> (out: Vec<Episode>)
    ensures
        spec_episode_views(out@) == spec_presented(spec_episode_views(episodes@), newest_first),
        spec_ascending(spec_episode_views(out@)),
        spec_episode_views(out@).to_multiset() == spec_episode_views(episodes@).to_multiset(),
        out@.len() == episodes@.len(),
        spec_distinct_numbers(spec_episode_views(episodes@)) ==> spec_strictly_ascending(
            spec_episode_views(out@),
        ),
        spec_distinct_ids(spec_episode_views(episodes@)) ==> spec_distinct_ids(
            spec_episode_views(out@),
        ),
{
    proof {
        if spec_distinct_numbers(spec_episode_views(episodes@)) {
            lemma_distinct_numbers_sort_strictly(spec_episode_views(episodes@), newest_first);
        }
        if spec_distinct_ids(spec_episode_views(episodes@)) {
            lemma_presented_distinct_ids(spec_episode_views(episodes@), newest_first);
        }
    }
    if newest_first {
        let turned: Vec<Episode> = reverse_episodes(episodes);
        proof {
            let views = spec_episode_views(episodes@);
            views.lemma_reverse_to_multiset();
            assert(views.reverse() =~= spec_reversed(views));
        }
        sort_episodes(turned)
    } else {
        sort_episodes(episodes)
    }
}

} // verus!
