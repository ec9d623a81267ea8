//! Episodes of one entry are unique by slug: of several episodes with one
//! slug the first that was found stays.

use vstd::prelude::*;
use crate::records::{spec_episode_views, Episode, EpisodeView};

verus! {

/// Tells whether an episode of `s` has the slug `id`.
pub open spec fn spec_has_id(s: Seq<EpisodeView>, id: Seq<char>) -> bool {
    exists|k: int| 0 <= k < s.len() && (#[trigger] s[k]).id == id
}

/// Tells whether no two episodes of `s` share a slug.
pub open spec fn spec_distinct_ids(s: Seq<EpisodeView>) -> bool {
    forall|i: int, j: int| 0 <= i < j < s.len() ==> s[i].id != s[j].id
}

/// The episodes of `s` without those whose slug an earlier episode has.
pub open spec fn spec_unique_by_id(s: Seq<EpisodeView>) -> Seq<EpisodeView>
    decreases s.len(),
{
    if s.len() == 0 {
        Seq::empty()
    } else {
        let before = spec_unique_by_id(s.drop_last());
        if spec_has_id(before, s.last().id) {
            before
        } else {
            before.push(s.last())
        }
    }
}

/// What is kept has distinct slugs, and it has exactly the slugs that
/// were given.
pub proof fn lemma_unique_by_id(s: Seq<EpisodeView>)
    ensures
        spec_distinct_ids(spec_unique_by_id(s)),
        spec_unique_by_id(s).len() <= s.len(),
        forall|id: Seq<char>| spec_has_id(spec_unique_by_id(s), id) <==> spec_has_id(s, id),
    decreases s.len(),
{
    if s.len() > 0 {
        let front = s.drop_last();
        let before = spec_unique_by_id(front);
        let out = spec_unique_by_id(s);
        lemma_unique_by_id(front);
        assert forall|id: Seq<char>| spec_has_id(out, id) <==> spec_has_id(s, id) by {
            if spec_has_id(out, id) {
                let k = choose|k: int| 0 <= k < out.len() && (#[trigger] out[k]).id == id;
                if k < before.len() {
                    assert(before[k].id == id);
                    assert(spec_has_id(front, id));
                    let m = choose|m: int| 0 <= m < front.len() && (#[trigger] front[m]).id == id;
                    assert(s[m].id == id);
                } else {
                    assert(s[s.len() - 1].id == id);
                }
            }
            if spec_has_id(s, id) {
                let m = choose|m: int| 0 <= m < s.len() && (#[trigger] s[m]).id == id;
                if m < front.len() {
                    assert(front[m].id == id);
                    assert(spec_has_id(front, id));
                    assert(spec_has_id(before, id));
                    let k = choose|k: int| 0 <= k < before.len() && (#[trigger] before[k]).id == id;
                    assert(out[k].id == id);
                } else if spec_has_id(before, id) {
                    let k = choose|k: int| 0 <= k < before.len() && (#[trigger] before[k]).id == id;
                    assert(out[k].id == id);
                } else {
                    assert(out[out.len() - 1].id == id);
                }
            }
        }
        assert forall|i: int, j: int| 0 <= i < j < out.len() implies out[i].id != out[j].id by {
            if j < before.len() {
                assert(before[i].id != before[j].id);
            } else {
                assert(before[i].id == out[i].id);
            }
        }
    }
}

/// Episodes whose slugs are distinct already are all kept.
pub proof fn lemma_unique_keeps_distinct(s: Seq<EpisodeView>)
    requires
        spec_distinct_ids(s),
    ensures
        spec_unique_by_id(s) == s,
    decreases s.len(),
{
    if s.len() > 0 {
        let front = s.drop_last();
        assert forall|i: int, j: int| 0 <= i < j < front.len() implies front[i].id
            != front[j].id by {
            assert(s[i].id != s[j].id);
        }
        lemma_unique_keeps_distinct(front);
        if spec_has_id(front, s.last().id) {
            let k = choose|k: int| 0 <= k < front.len() && (#[trigger] front[k]).id == s.last().id;
            assert(s[k].id != s[s.len() - 1].id);
        }
        assert(front.push(s.last()) =~= s);
    }
}

/// Tells whether an episode of `list` has the slug `id`.
pub fn has_id(list: &Vec<Episode>, id: &String) -> (r: bool)
    ensures
        r == spec_has_id(spec_episode_views(list@), id@),
{
    let ghost views = spec_episode_views(list@);
    let mut i: usize = 0;
    while i < list.len()
        invariant
            i <= list.len(),
            views == spec_episode_views(list@),
            forall|k: int| 0 <= k < i ==> (#[trigger] views[k]).id != id@,
        decreases list.len() - i,
    {
        if list[i].id == *id {
            proof {
                assert(views[i as int].id == id@);
            }
            return true;
        }
        i += 1;
    }
    false
}

/// A copy of an episode.
pub fn copy_episode(e: &Episode) -> (r: Episode)
    ensures
        r@ == e@,
{
    Episode { id: e.id.clone(), number: e.number, title: e.title.clone(), url: e.url.clone() }
}

/// Drops every episode whose slug an earlier episode of the list has.
pub fn unique_by_id(episodes: &Vec<Episode>) -> (out: Vec<Episode>)
    ensures
        spec_episode_views(out@) == spec_unique_by_id(spec_episode_views(episodes@)),
        spec_distinct_ids(spec_episode_views(out@)),
{
    let ghost views = spec_episode_views(episodes@);
    let mut out: Vec<Episode> = Vec::new();
    let mut i: usize = 0;
    proof {
        assert(spec_episode_views(out@) =~= Seq::<EpisodeView>::empty());
        assert(views.subrange(0, 0) =~= Seq::<EpisodeView>::empty());
    }
    while i < episodes.len()
        invariant
            i <= episodes.len(),
            views == spec_episode_views(episodes@),
            spec_episode_views(out@) == spec_unique_by_id(views.subrange(0, i as int)),
        decreases episodes.len() - i,
    {
        let ghost before = spec_episode_views(out@);
        proof {
            assert(views.subrange(0, i + 1).drop_last() =~= views.subrange(0, i as int));
            assert(views.subrange(0, i + 1).last() == episodes@[i as int]@);
        }
        if !has_id(&out, &episodes[i].id) {
            let e: Episode = copy_episode(&episodes[i]);
            out.push(e);
            proof {
                assert(spec_episode_views(out@) =~= before.push(e@));
            }
        }
        i += 1;
    }
    proof {
        assert(views.subrange(0, episodes.len() as int) =~= views);
        lemma_unique_by_id(views);
    }
    out
}

} // verus!
