//! Which entries of the working directory go once a version is installed.
use vstd::prelude::*;

verus! {

/// The names of directory entries as text; an entry whose name is not valid
/// text has none.
pub open spec fn entry_names(entries: Seq<Option<String>>) -> Seq<Option<Seq<char>>> {
    entries.map_values(
        |e: Option<String>|
            match e {
                Some(s) => Some(s@),
                None => None,
            },
    )
}

/// An entry is stale unless it is called exactly `keep`.
pub open spec fn is_stale(name: Option<Seq<char>>, keep: Seq<char>) -> bool {
    name != Some(keep)
}

/// Positions of the stale entries, in ascending order.
pub open spec fn stale_indices(names: Seq<Option<Seq<char>>>, keep: Seq<char>) -> Seq<int>
    decreases names.len(),
{
    if names.len() == 0 {
        Seq::empty()
    } else if is_stale(names.last(), keep) {
        stale_indices(names.drop_last(), keep).push(names.len() - 1)
    } else {
        stale_indices(names.drop_last(), keep)
    }
}

/// Positions as mathematical integers.
pub open spec fn positions(indices: Seq<usize>) -> Seq<int> {
    indices.map_values(|i: usize| i as int)
}

/// Every entry but the one called `keep` is marked for removal, and that one
/// never is: a position is listed exactly when its entry is stale.
pub proof fn lemma_stale_indices(names: Seq<Option<Seq<char>>>, keep: Seq<char>)
    ensures
        forall|i: int|
            0 <= i < names.len() ==> (stale_indices(names, keep).contains(i) <==> is_stale(
                #[trigger] names[i],
                keep,
            )),
        forall|k: int|
            0 <= k < stale_indices(names, keep).len() ==> 0 <= #[trigger] stale_indices(names, keep)[k]
                < names.len(),
        forall|k: int, l: int|
            0 <= k < l < stale_indices(names, keep).len() ==> stale_indices(names, keep)[k]
                < stale_indices(names, keep)[l],
    decreases names.len(),
{
    if names.len() > 0 {
        let rest = names.drop_last();
        let last = names.len() - 1;
        let before = stale_indices(rest, keep);
        let all = stale_indices(names, keep);
        lemma_stale_indices(rest, keep);
        assert forall|i: int| 0 <= i < names.len() implies (all.contains(i) <==> is_stale(
            #[trigger] names[i],
            keep,
        )) by {
            if i < last {
                assert(rest[i] == names[i]);
                if before.contains(i) {
                    let k = choose|k: int| 0 <= k < before.len() && before[k] == i;
                    assert(all[k] == i);
                }
                if all.contains(i) {
                    let k = choose|k: int| 0 <= k < all.len() && all[k] == i;
                    if k < before.len() {
                        assert(before[k] == i);
                    }
                }
            } else {
                if is_stale(names[i], keep) {
                    assert(all[before.len() as int] == last);
                }
                if all.contains(i) {
                    let k = choose|k: int| 0 <= k < all.len() && all[k] == i;
                    if k < before.len() {
                        assert(before[k] < rest.len());
                    }
                }
            }
        }
    }
}

/// Once every listed removal has succeeded, whatever is left in the working
/// directory is called `keep`: no other version outlives a pruning.
pub proof fn lemma_only_the_kept_survives(names: Seq<Option<Seq<char>>>, keep: Seq<char>, i: int)
    requires
        0 <= i < names.len(),
        !stale_indices(names, keep).contains(i),
    ensures
        names[i] == Some(keep),
{
    lemma_stale_indices(names, keep);
}

/// The entries to delete after installing into the directory called `keep`:
/// every entry of the listing but that one, by position.
pub fn stale_entries(entries: &Vec<Option<String>>, keep: &String) -> (r: Vec<usize>)
    ensures
        positions(r@) == stale_indices(entry_names(entries@), keep@),
{
    let ghost names = entry_names(entries@);
    let mut out: Vec<usize> = Vec::new();
    let mut i: usize = 0;
    assert(names.take(0) =~= Seq::empty());
    assert(positions(out@) =~= Seq::empty());
    while i < entries.len()
        invariant
            i <= entries.len(),
            names == entry_names(entries@),
            names.len() == entries.len(),
            positions(out@) == stale_indices(names.take(i as int), keep@),
        decreases entries.len() - i,
    {
        let stale = match &entries[i] {
            Some(name) => !(*name == *keep),
            None => true,
        };
        let ghost before = out@;
        if stale {
            out.push(i);
        }
        proof {
            let prefix = names.take(i as int + 1);
            assert(prefix.drop_last() =~= names.take(i as int));
            assert(prefix.last() == names[i as int]);
            assert(stale == is_stale(names[i as int], keep@));
            if stale {
                assert(positions(out@) =~= positions(before).push(i as int));
            }
        }
        i += 1;
    }
    assert(names.take(i as int) =~= names);
    out
}

} // verus!
