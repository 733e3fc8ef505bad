//! Cleanup: removing every file of a folder that has a given extension.
//!
//! The files are removed by the caller. A deletion walks the listing, names
//! the file to remove next, and stops at the first failure.

use vstd::prelude::*;
use crate::errors::{io_failure, message_of, ConvertError, PathKind};
use crate::listing::{entry_matches, is_candidate, name_of, Listed};

verus! {

/// What the caller of a deletion does next.
#[derive(Debug, PartialEq, Eq)]
pub enum DeleteStep {
    /// Remove the file at this position of the listing, then report back.
    Remove(usize),
    /// The operation is over: with the number of files removed, or with the
    /// failure that stopped it.
    Finished(Result<usize, ConvertError>),
}

/// A deletion under way.
pub struct Deletion {
    listing: Vec<Listed>,
    ext: String,
    pos: usize,
    deleted: usize,
}

/// The walk halts at an entry that could not be read and at a candidate.
pub open spec fn halts(entry: Listed, ext: Seq<char>) -> bool {
    entry is Unreadable || is_candidate(entry, ext)
}

/// The first position from `from` on at which the walk halts, or the length
/// of the listing where it halts nowhere.
pub open spec fn next_halt(listing: Seq<Listed>, ext: Seq<char>, from: int) -> int
    decreases listing.len() - from,
{
    if from < 0 || from >= listing.len() {
        listing.len() as int
    } else if halts(listing[from], ext) {
        from
    } else {
        next_halt(listing, ext, from + 1)
    }
}

/// A step as mathematics: the position of the file to remove, the number
/// of files removed at the end, or the text of the failure that stops the
/// walk.
pub enum StepView {
    Remove(int),
    Done(int),
    Stopped(Seq<char>),
}

impl View for DeleteStep {
    type V = StepView;

    open spec fn view(&self) -> StepView {
        match *self {
            DeleteStep::Remove(i) => StepView::Remove(i as int),
            DeleteStep::Finished(Ok(n)) => StepView::Done(n as int),
            DeleteStep::Finished(Err(e)) => StepView::Stopped(message_of(e)),
        }
    }
}

/// What there is to do where the walk has halted, with `deleted` files
/// removed before.
pub open spec fn step_at(listing: Seq<Listed>, at: int, deleted: int) -> StepView {
    if at < 0 || at >= listing.len() {
        StepView::Done(deleted)
    } else {
        match listing[at] {
            Listed::Unreadable(cause) => StepView::Stopped("Ошибка чтения записи: "@ + cause@),
            Listed::Found { name, is_file } => StepView::Remove(at),
        }
    }
}

/// The step of a walk that goes on from `from`, with `deleted` files
/// removed before.
pub open spec fn next_step(listing: Seq<Listed>, ext: Seq<char>, from: int, deleted: int) -> StepView {
    step_at(listing, next_halt(listing, ext, from), deleted)
}

/// The text of the failure to remove the file `name`.
pub open spec fn removal_failure(name: Seq<char>, cause: Seq<char>) -> Seq<char> {
    "Ошибка удаления файла "@ + name + ": "@ + cause
}

/// A folder without candidates, all of whose entries can be read, is walked
/// to its end: nothing is removed from it and nothing fails.
pub proof fn lemma_clean_folder(listing: Seq<Listed>, ext: Seq<char>, from: int)
    requires
        0 <= from <= listing.len(),
        forall|i: int| 0 <= i < listing.len() ==> !halts(#[trigger] listing[i], ext),
    ensures
        next_halt(listing, ext, from) == listing.len(),
        forall|deleted: int| next_step(listing, ext, from, deleted) == StepView::Done(deleted),
    decreases listing.len() - from,
{
    if from < listing.len() {
        lemma_clean_folder(listing, ext, from + 1);
    }
}

/// What is left of a listing once its candidates are gone has no candidate:
/// on a readable folder a second cleanup walks to the end at once.
pub proof fn lemma_second_cleanup(listing: Seq<Listed>, ext: Seq<char>)
    requires
        forall|i: int| 0 <= i < listing.len() ==> !(#[trigger] listing[i] is Unreadable),
    ensures
        next_halt(listing.filter(|e: Listed| !is_candidate(e, ext)), ext, 0) == listing.filter(
            |e: Listed| !is_candidate(e, ext),
        ).len(),
        next_step(listing.filter(|e: Listed| !is_candidate(e, ext)), ext, 0, 0) == StepView::Done(0),
{
    let keep = |e: Listed| !is_candidate(e, ext);
    let left = listing.filter(keep);
    assert forall|i: int| 0 <= i < left.len() implies !halts(#[trigger] left[i], ext) by {
        listing.lemma_filter_pred(keep, i);
        assert(left.contains(left[i]));
        listing.lemma_filter_contains_rev(keep, left[i]);
        let j = choose|j: int| 0 <= j < listing.len() && listing[j] == left[i];
        assert(!(listing[j] is Unreadable));
    }
    lemma_clean_folder(left, ext, 0);
}

impl Deletion {
    /// The listing that is walked.
    pub closed spec fn listing(&self) -> Seq<Listed> {
        self.listing@
    }

    /// The extension of the files to remove.
    pub closed spec fn extension(&self) -> Seq<char> {
        self.ext@
    }

    /// How far the walk has come.
    pub closed spec fn position(&self) -> int {
        self.pos as int
    }

    /// How many files were removed so far.
    pub closed spec fn deleted(&self) -> int {
        self.deleted as int
    }

    /// The walk is inside the listing and has removed no more than it passed.
    pub closed spec fn wf(&self) -> bool {
        self.deleted <= self.pos <= self.listing@.len()
    }

    /// A removal is awaited: the walk stands at a candidate.
    pub open spec fn at_candidate(&self) -> bool {
        &&& 0 <= self.position() < self.listing().len()
        &&& is_candidate(self.listing()[self.position()], self.extension())
    }

    /// Walks on to the next candidate or unreadable entry, or to the end, and
    /// says what to do there.
    pub fn advance(&mut self) -> (step: DeleteStep)
        requires
            old(self).wf(),
        ensures
            final(self).wf(),
            final(self).listing() == old(self).listing(),
            final(self).extension() == old(self).extension(),
            final(self).deleted() == old(self).deleted(),
            final(self).position() == next_halt(
                old(self).listing(),
                old(self).extension(),
                old(self).position(),
            ),
            step@ == next_step(
                old(self).listing(),
                old(self).extension(),
                old(self).position(),
                old(self).deleted(),
            ),
            match step {
                DeleteStep::Remove(i) => i as int == final(self).position() && final(self).at_candidate(),
                DeleteStep::Finished(Ok(n)) => final(self).position() == final(self).listing().len()
                    && n as int == final(self).deleted(),
                DeleteStep::Finished(Err(e)) => {
                    &&& final(self).position() < final(self).listing().len()
                    &&& final(self).listing()[final(self).position()] matches Listed::Unreadable(
                        cause,
                    )
                    &&& e is Io
                    &&& message_of(e) == "Ошибка чтения записи: "@ + cause@
                },
            },
    {
        let ghost start = self.pos as int;
        while self.pos < self.listing.len()
            invariant
                self.wf(),
                self.listing == old(self).listing,
                self.ext == old(self).ext,
                self.deleted == old(self).deleted,
                start == old(self).pos,
                start <= self.pos,
                next_halt(self.listing@, self.ext@, start) == next_halt(
                    self.listing@,
                    self.ext@,
                    self.pos as int,
                ),
            decreases self.listing@.len() - self.pos,
        {
            match &self.listing[self.pos] {
                Listed::Unreadable(cause) => {
                    assert(halts(self.listing@[self.pos as int], self.ext@));
                    return DeleteStep::Finished(
                        Err(io_failure("Ошибка чтения записи: ", cause.as_str())),
                    );
                },
                found => {
                    if entry_matches(found, self.ext.as_str()) {
                        assert(halts(self.listing@[self.pos as int], self.ext@));
                        return DeleteStep::Remove(self.pos);
                    }
                    assert(!halts(self.listing@[self.pos as int], self.ext@));
                },
            }
            self.pos = self.pos + 1;
        }
        DeleteStep::Finished(Ok(self.deleted))
    }

    /// Takes the outcome of the removal that was asked for. On success the
    /// file is counted and the walk moves past it. On failure the answer is
    /// the error that ends the operation. Where no removal was awaited,
    /// nothing changes.
    pub fn removed(&mut self, outcome: Result<(), String>) -> (stop: Option<ConvertError>)
        requires
            old(self).wf(),
        ensures
            final(self).wf(),
            final(self).listing() == old(self).listing(),
            final(self).extension() == old(self).extension(),
            old(self).at_candidate() && outcome is Ok ==> {
                &&& stop is None
                &&& final(self).position() == old(self).position() + 1
                &&& final(self).deleted() == old(self).deleted() + 1
            },
            old(self).at_candidate() ==> (outcome matches Err(cause) ==> {
                &&& stop matches Some(e)
                &&& e is Io
                &&& message_of(e) == removal_failure(
                    name_of(old(self).listing()[old(self).position()]),
                    cause@,
                )
            }),
            !old(self).at_candidate() || outcome is Err ==> {
                &&& final(self).position() == old(self).position()
                &&& final(self).deleted() == old(self).deleted()
            },
            !old(self).at_candidate() ==> stop is None,
    {
        if self.pos >= self.listing.len() {
            return None;
        }
        match &self.listing[self.pos] {
            Listed::Unreadable(_) => None,
            Listed::Found { name, is_file } => {
                if !entry_matches(&self.listing[self.pos], self.ext.as_str()) {
                    return None;
                }
                match outcome {
                    Ok(_) => {
                        self.pos = self.pos + 1;
                        self.deleted = self.deleted + 1;
                        None
                    },
                    Err(cause) => {
                        let mut context = String::from_str("Ошибка удаления файла ");
                        context.append(name.as_str());
                        context.append(": ");
                        Some(io_failure(context.as_str(), cause.as_str()))
                    },
                }
            },
        }
    }
}

/// Starts the cleanup of a folder: `folder` is what the path was found to
/// be, `listing` what reading it gave, `ext` the extension of the files to
/// remove. Fails with `InvalidPath` unless the path is a directory, and with
/// `Io` where the directory could not be read.
pub fn delete_webp_files(folder: PathKind, listing: Result<Vec<Listed>, String>, ext: &str) -> (r:
    Result<Deletion, ConvertError>)
    ensures
        folder != PathKind::Directory ==> r == Err::<Deletion, ConvertError>(
            ConvertError::InvalidPath,
        ),
        folder == PathKind::Directory ==> match listing {
            Ok(entries) => r matches Ok(d) && d.wf() && d.listing() == entries@ && d.extension()
                == ext@ && d.position() == 0 && d.deleted() == 0,
            Err(cause) => r matches Err(e) && e is Io && message_of(e)
                == "Ошибка чтения папки: "@ + cause@,
        },
{
    if folder != PathKind::Directory {
        return Err(ConvertError::InvalidPath);
    }
    match listing {
        Err(cause) => Err(io_failure("Ошибка чтения папки: ", cause.as_str())),
        Ok(entries) => Ok(Deletion { listing: entries, ext: String::from_str(ext), pos: 0, deleted: 0 }),
    }
}

} // verus!
