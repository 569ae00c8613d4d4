use vstd::prelude::*;

verus! {

broadcast use {
    Seq::lemma_filter_push,
    Seq::lemma_filter_pred,
    Seq::lemma_filter_contains,
    Seq::lemma_filter_contains_rev,
};

/// The views of a sequence of strings.
pub open spec fn views_of(v: Seq<String>) -> Seq<Seq<char>> {
    v.map_values(|s: String| s@)
}

/// The entries of the working root that are not the current version directory.
pub open spec fn stale_names(entries: Seq<Seq<char>>, keep: Seq<char>) -> Seq<Seq<char>> {
    entries.filter(|n: Seq<char>| n != keep)
}

/// What remains of `entries` once every name in `removed` is gone.
pub open spec fn survivors(entries: Seq<Seq<char>>, removed: Seq<Seq<char>>) -> Seq<Seq<char>> {
    entries.filter(|n: Seq<char>| !removed.contains(n))
}

/// Picks, in listing order, every entry of the working root to remove: all but `keep`.
pub fn stale_entries(entries: &Vec<String>, keep: &String) -> (r: Vec<String>)
    ensures
        views_of(r@) == stale_names(views_of(entries@), keep@),
{
    let mut out: Vec<String> = Vec::new();
    let mut i: usize = 0;
    while i < entries.len()
        invariant
            0 <= i <= entries@.len(),
            views_of(out@) == stale_names(views_of(entries@.subrange(0, i as int)), keep@),
        decreases entries@.len() - i,
    {
        let ghost before = views_of(entries@.subrange(0, i as int));
        proof {
            assert(views_of(entries@.subrange(0, i + 1)) =~= before.push(entries@[i as int]@));
        }
        if entries[i] != *keep {
            out.push(entries[i].clone());
            proof {
                assert(views_of(out@) =~= stale_names(before, keep@).push(entries@[i as int]@));
            }
        }
        i = i + 1;
    }
    proof {
        assert(entries@.subrange(0, entries@.len() as int) =~= entries@);
    }
    out
}

/// Cleanup leaves exactly the current version directory: once the stale
/// entries are removed, every surviving entry is `keep`, every entry other
/// than `keep` is gone, and a second cleanup finds nothing to remove.
pub proof fn lemma_cleanup_leaves_only_current(entries: Seq<Seq<char>>, keep: Seq<char>)
    ensures
        forall|n: Seq<char>|
            #[trigger] survivors(entries, stale_names(entries, keep)).contains(n) ==> n == keep,
        forall|n: Seq<char>|
            entries.contains(n) && n != keep ==> !#[trigger] survivors(
                entries,
                stale_names(entries, keep),
            ).contains(n),
        stale_names(survivors(entries, stale_names(entries, keep)), keep).len() == 0,
{
    let stale = stale_names(entries, keep);
    let rest = survivors(entries, stale);
    assert forall|n: Seq<char>| #[trigger] rest.contains(n) implies n == keep by {
        if n != keep {
            assert(entries.contains(n));
            let i = choose|i: int| 0 <= i < entries.len() && entries[i] == n;
            assert(stale.contains(entries[i]));
        }
    }
    assert forall|n: Seq<char>| entries.contains(n) && n != keep implies !#[trigger] rest.contains(n) by {
        if rest.contains(n) {
            let i = choose|i: int| 0 <= i < entries.len() && entries[i] == n;
            assert(stale.contains(entries[i]));
        }
    }
    let again = stale_names(rest, keep);
    if again.len() > 0 {
        assert(again[0] != keep);
        assert(again.contains(again[0]));
        assert(rest.contains(again[0]));
    }
}

} // verus!
