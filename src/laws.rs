use vstd::prelude::*;

use crate::feed::{kept_entries, resolves, resolves_against};
use crate::scan::PodcastEntry;

verus! {

/// The number of entries whose enclosure URL resolves against `base`.
pub open spec fn resolved_count(base: Seq<char>, entries: Seq<PodcastEntry>) -> nat
    decreases entries.len(),
{
    if entries.len() == 0 {
        0
    } else {
        resolved_count(base, entries.drop_first()) + if resolves(base, entries.first()) {
            1nat
        } else {
            0nat
        }
    }
}

/// The feed has as many items as there are entries whose enclosure URL
/// resolves; each item's source entry resolves.
pub proof fn lemma_item_count(base: Seq<char>, entries: Seq<PodcastEntry>)
    ensures
        kept_entries(base, entries).len() == resolved_count(base, entries),
        forall|i: int|
            0 <= i < kept_entries(base, entries).len() ==> resolves(
                base,
                #[trigger] kept_entries(base, entries)[i],
            ),
    decreases entries.len(),
{
    broadcast use vstd::seq_lib::group_filter_ensures;

    if entries.len() > 0 {
        let rest = entries.drop_first();
        lemma_item_count(base, rest);
        assert(entries =~= seq![entries.first()] + rest);
        lemma_kept_prepend(base, entries.first(), rest);
    }
}

/// Every entry that gets an item is one of the entries.
pub proof fn lemma_kept_in_entries(base: Seq<char>, entries: Seq<PodcastEntry>)
    ensures
        forall|i: int|
            0 <= i < kept_entries(base, entries).len() ==> exists|j: int|
                0 <= j < entries.len() && entries[j] == #[trigger] kept_entries(base, entries)[i],
    decreases entries.len(),
{
    if entries.len() > 0 {
        let front = entries.drop_last();
        let e = entries.last();
        lemma_kept_in_entries(base, front);
        assert(entries =~= front.push(e));
        front.lemma_filter_push(e, resolves_against(base));
        assert forall|i: int| 0 <= i < kept_entries(base, entries).len() implies exists|j: int|
            0 <= j < entries.len() && entries[j] == #[trigger] kept_entries(base, entries)[i] by {
            if i < kept_entries(base, front).len() {
                let j = choose|j: int| 0 <= j < front.len() && front[j] == kept_entries(base, front)[i];
                assert(entries[j] == front[j]);
            } else {
                assert(entries[entries.len() - 1] == e);
            }
        }
    } else {
        reveal(Seq::filter);
    }
}

/// Putting an entry in front of others adds one kept entry where it
/// resolves, and none where it does not.
proof fn lemma_kept_prepend(base: Seq<char>, e: PodcastEntry, rest: Seq<PodcastEntry>)
    ensures
        kept_entries(base, seq![e] + rest).len() == kept_entries(base, rest).len() + if resolves(
            base,
            e,
        ) {
            1int
        } else {
            0int
        },
    decreases rest.len(),
{
    let p = resolves_against(base);
    let s = seq![e] + rest;
    if rest.len() == 0 {
        assert(s.drop_last() =~= Seq::<PodcastEntry>::empty());
        assert(s =~= s.drop_last().push(e));
        s.drop_last().lemma_filter_push(e, p);
        reveal(Seq::filter);
        assert(s.drop_last().filter(p) == s.drop_last());
        assert(rest.filter(p) == rest);
    } else {
        assert(s.drop_last() =~= seq![e] + rest.drop_last());
        assert(s.last() == rest.last());
        lemma_kept_prepend(base, e, rest.drop_last());
        assert(s =~= s.drop_last().push(rest.last()));
        assert(rest =~= rest.drop_last().push(rest.last()));
        s.drop_last().lemma_filter_push(rest.last(), p);
        rest.drop_last().lemma_filter_push(rest.last(), p);
    }
}

} // verus!
