//! Directory listings and the choice of the files an operation works on.

use vstd::prelude::*;
use crate::names::{has_extension, matches_extension};

verus! {

/// One entry of a directory listing, as far as it could be read.
#[derive(Clone, Debug, PartialEq, Eq)]
pub enum Listed {
    /// The entry could not be read; the text says why.
    Unreadable(String),
    /// An entry with its file name; `is_file` tells a regular file from
    /// anything else.
    Found { name: String, is_file: bool },
}

/// A candidate is a regular file whose extension matches, ASCII case ignored.
pub open spec fn is_candidate(entry: Listed, ext: Seq<char>) -> bool {
    match entry {
        Listed::Unreadable(_) => false,
        Listed::Found { name, is_file } => is_file && matches_extension(name@, ext),
    }
}

/// The file name of an entry, empty for one that could not be read.
pub open spec fn name_of(entry: Listed) -> Seq<char> {
    match entry {
        Listed::Unreadable(_) => Seq::<char>::empty(),
        Listed::Found { name, is_file } => name@,
    }
}

/// The positions of the candidates in a listing, in listing order.
pub open spec fn selected(listing: Seq<Listed>, ext: Seq<char>) -> Seq<int>
    decreases listing.len(),
{
    if listing.len() == 0 {
        Seq::<int>::empty()
    } else if is_candidate(listing.last(), ext) {
        selected(listing.drop_last(), ext).push(listing.len() - 1)
    } else {
        selected(listing.drop_last(), ext)
    }
}

/// The file names of the candidates in a listing, in listing order.
pub open spec fn candidate_names(listing: Seq<Listed>, ext: Seq<char>) -> Seq<Seq<char>> {
    listing.filter(|e: Listed| is_candidate(e, ext)).map_values(|e: Listed| name_of(e))
}

/// The positions as mathematical integers.
pub open spec fn positions(picks: Seq<usize>) -> Seq<int> {
    picks.map_values(|i: usize| i as int)
}

/// The selection holds exactly the candidates' positions, in rising order,
/// and as many of them as the listing has candidates.
pub proof fn lemma_selected(listing: Seq<Listed>, ext: Seq<char>)
    ensures
        selected(listing, ext).len() == listing.filter(|e: Listed| is_candidate(e, ext)).len(),
        selected(listing, ext).len() <= listing.len(),
        forall|k: int|
            0 <= k < selected(listing, ext).len() ==> {
                &&& 0 <= #[trigger] selected(listing, ext)[k] < listing.len()
                &&& is_candidate(listing[selected(listing, ext)[k]], ext)
                &&& listing.filter(|e: Listed| is_candidate(e, ext))[k]
                    == listing[selected(listing, ext)[k]]
            },
        forall|k: int, l: int|
            0 <= k < l < selected(listing, ext).len() ==> selected(listing, ext)[k] < selected(
                listing,
                ext,
            )[l],
        forall|i: int|
            0 <= i < listing.len() && is_candidate(#[trigger] listing[i], ext) ==> selected(
                listing,
                ext,
            ).contains(i),
    decreases listing.len(),
{
    reveal(Seq::filter);
    let pred = |e: Listed| is_candidate(e, ext);
    let sel = selected(listing, ext);
    if listing.len() > 0 {
        let front = listing.drop_last();
        let fsel = selected(front, ext);
        lemma_selected(front, ext);
        assert(forall|k: int| 0 <= k < fsel.len() ==> sel[k] == fsel[k]);
        assert forall|k: int| 0 <= k < sel.len() implies {
            &&& 0 <= #[trigger] sel[k] < listing.len()
            &&& is_candidate(listing[sel[k]], ext)
            &&& listing.filter(pred)[k] == listing[sel[k]]
        } by {
            if k < fsel.len() {
                assert(front[fsel[k]] == listing[fsel[k]]);
                assert(front.filter(pred)[k] == listing.filter(pred)[k]);
            }
        }
        assert forall|i: int|
            0 <= i < listing.len() && is_candidate(#[trigger] listing[i], ext) implies sel.contains(
            i,
        ) by {
            if i < front.len() {
                assert(front[i] == listing[i]);
                let k = choose|k: int| 0 <= k < fsel.len() && fsel[k] == i;
                assert(sel[k] == i);
            } else {
                assert(sel[sel.len() - 1] == i);
            }
        }
    }
}

/// Entries that are no candidates do not matter: a listing and the same
/// listing with one such entry put in anywhere give the same candidates.
pub proof fn lemma_other_entries_ignored(
    before: Seq<Listed>,
    other: Listed,
    after: Seq<Listed>,
    ext: Seq<char>,
)
    requires
        !is_candidate(other, ext),
    ensures
        candidate_names(before + seq![other] + after, ext) == candidate_names(before + after, ext),
        selected(before + seq![other] + after, ext).len() == selected(before + after, ext).len(),
{
    reveal(Seq::filter);
    let pred = |e: Listed| is_candidate(e, ext);
    let one = seq![other];
    assert(one.drop_last() =~= Seq::<Listed>::empty());
    assert(one.drop_last().filter(pred) =~= Seq::<Listed>::empty());
    assert(!pred(one.last()));
    assert(one.filter(pred) =~= Seq::<Listed>::empty());
    Seq::filter_distributes_over_add(before, one, pred);
    Seq::filter_distributes_over_add(before + one, after, pred);
    Seq::filter_distributes_over_add(before, after, pred);
    assert((before + one + after).filter(pred) =~= (before + after).filter(pred));
    lemma_selected(before + one + after, ext);
    lemma_selected(before + after, ext);
}

/// Is the entry a regular file with the extension `ext`, ASCII case ignored?
pub fn entry_matches(entry: &Listed, ext: &str) -> (r: bool)
    ensures
        r == is_candidate(*entry, ext@),
{
    match entry {
        Listed::Unreadable(_) => false,
        Listed::Found { name, is_file } => *is_file && has_extension(name.as_str(), ext),
    }
}

/// The positions of the candidates in `listing`, in listing order.
pub fn select(listing: &Vec<Listed>, ext: &str) -> (picks: Vec<usize>)
    ensures
        positions(picks@) == selected(listing@, ext@),
{
    let mut picks: Vec<usize> = Vec::new();
    let mut i: usize = 0;
    assert(listing@.take(0) =~= Seq::<Listed>::empty());
    assert(positions(picks@) =~= Seq::<int>::empty());
    while i < listing.len()
        invariant
            i <= listing.len(),
            positions(picks@) == selected(listing@.take(i as int), ext@),
        decreases listing.len() - i,
    {
        proof {
            let next = listing@.take(i + 1);
            assert(next.last() == listing@[i as int]);
            assert(next.drop_last() =~= listing@.take(i as int));
        }
        let ghost earlier = picks@;
        if entry_matches(&listing[i], ext) {
            picks.push(i);
            assert(positions(picks@) =~= positions(earlier).push(i as int));
        }
        i += 1;
    }
    assert(listing@.take(i as int) =~= listing@);
    picks
}

} // verus!
