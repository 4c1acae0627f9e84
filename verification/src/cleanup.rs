//! Which entries of the working directory are left over from other versions.

use vstd::prelude::*;

verus! {

/// What a listing of the working directory shows: the name of each entry, in the
/// order listed; `None` stands for a name that is not valid text.
pub open spec fn listing_model(entries: Seq<Option<String>>) -> Seq<Option<Seq<char>>> {
    Seq::new(
        entries.len(),
        |i: int|
            match entries[i] {
                Some(name) => Some(name@),
                None => None,
            },
    )
}

/// An entry is stale unless its name is exactly the directory to keep.
pub open spec fn is_stale(entry: Option<Seq<char>>, keep: Seq<char>) -> bool {
    entry != Some(keep)
}

/// The positions of the stale entries of a listing, in increasing order.
pub open spec fn stale_positions(entries: Seq<Option<Seq<char>>>, keep: Seq<char>) -> Seq<usize>
    decreases entries.len(),
{
    if entries.len() == 0 {
        Seq::empty()
    } else {
        let before = stale_positions(entries.drop_last(), keep);
        if is_stale(entries.last(), keep) {
            before.push((entries.len() - 1) as usize)
        } else {
            before
        }
    }
}

/// Decides whether one entry is stale.
pub fn entry_is_stale(entry: &Option<String>, keep: &String) -> (r: bool)
    ensures
        r == is_stale(
            match *entry {
                Some(name) => Some(name@),
                None => None,
            },
            keep@,
        ),
{
    match entry {
        Some(name) => !(*name == *keep),
        None => true,
    }
}

/// Collects the positions of the entries to remove so that only `keep` is left.
pub fn stale_entries(entries: &Vec<Option<String>>, keep: &String) -> (r: Vec<usize>)
    ensures
        r@ == stale_positions(listing_model(entries@), keep@),
{
    let mut stale: Vec<usize> = Vec::new();
    let mut i: usize = 0;
    while i < entries.len()
        invariant
            i <= entries.len(),
            stale@ == stale_positions(listing_model(entries@).take(i as int), keep@),
        decreases entries.len() - i,
    {
        proof {
            let all = listing_model(entries@);
            assert(all.take(i + 1).drop_last() == all.take(i as int));
            assert(all.take(i + 1).last() == all[i as int]);
        }
        if entry_is_stale(&entries[i], keep) {
            stale.push(i);
        }
        i += 1;
    }
    proof {
        let all = listing_model(entries@);
        assert(all.take(i as int) == all);
    }
    stale
}

/// The stale positions are exactly the positions of the entries not named `keep`,
/// each once and in increasing order: the entry to keep is never among them, and
/// every other entry is.
pub proof fn stale_positions_are_exact(entries: Seq<Option<Seq<char>>>, keep: Seq<char>)
    requires
        entries.len() <= usize::MAX,
    ensures
        forall|k: int|
            0 <= k < stale_positions(entries, keep).len() ==> {
                let p = #[trigger] stale_positions(entries, keep)[k];
                0 <= p < entries.len() && entries[p as int] != Some(keep)
            },
        forall|p: int|
            0 <= p < entries.len() && #[trigger] entries[p] != Some(keep)
                ==> stale_positions(entries, keep).contains(p as usize),
        forall|k: int, l: int|
            0 <= k < l < stale_positions(entries, keep).len() ==> stale_positions(entries, keep)[k]
                < stale_positions(entries, keep)[l],
    decreases entries.len(),
{
    if entries.len() > 0 {
        let shorter = entries.drop_last();
        let before = stale_positions(shorter, keep);
        let all = stale_positions(entries, keep);
        stale_positions_are_exact(shorter, keep);
        let last = (entries.len() - 1) as usize;
        assert forall|p: int| 0 <= p < entries.len() && #[trigger] entries[p] != Some(keep)
            implies all.contains(p as usize) by {
            if p < entries.len() - 1 {
                assert(shorter[p] == entries[p]);
                assert(before.contains(p as usize));
                let k = choose|k: int| 0 <= k < before.len() && before[k] == p as usize;
                assert(all[k] == p as usize);
            } else {
                assert(all[all.len() - 1] == last);
            }
        }
        assert forall|k: int| 0 <= k < all.len() implies {
            let p = #[trigger] all[k];
            0 <= p < entries.len() && entries[p as int] != Some(keep)
        } by {
            if k < before.len() {
                assert(all[k] == before[k]);
                assert(shorter[before[k] as int] == entries[before[k] as int]);
            }
        }
        assert forall|k: int, l: int| 0 <= k < l < all.len() implies all[k] < all[l] by {
            if l < before.len() {
                assert(all[k] == before[k] && all[l] == before[l]);
            } else {
                assert(all[k] == before[k]);
                assert(before[k] < shorter.len());
            }
        }
    }
}

} // verus!
