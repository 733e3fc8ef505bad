//! Batch conversion: the report, and the bookkeeping of one batch.
//!
//! The files themselves are read and written by the caller. A batch tells it
//! which file comes next and takes back how the conversion went.

use vstd::prelude::*;
use crate::errors::{io_failure, message_of, ConvertError, PathKind};
use crate::names::{renamed, with_extension};
use crate::listing::{candidate_names, is_candidate, lemma_selected, name_of, positions, select, selected, Listed};

verus! {

/// What a batch did: how many files were converted, how many failed, and one
/// line for each failure.
#[derive(Debug, PartialEq, Eq)]
pub struct ConversionResult {
    pub converted: usize,
    pub failed: usize,
    pub errors: Vec<String>,
}

/// A report as mathematics.
pub struct Tally {
    pub converted: nat,
    pub failed: nat,
    pub errors: Seq<Seq<char>>,
}

/// The line that reports the failure of one file.
pub open spec fn error_line(name: Seq<char>, e: ConvertError) -> Seq<char> {
    name + ": "@ + message_of(e)
}

impl Tally {
    pub open spec fn empty() -> Tally {
        Tally { converted: 0, failed: 0, errors: Seq::empty() }
    }

    /// The report after one more file.
    pub open spec fn with(self, name: Seq<char>, outcome: Result<(), ConvertError>) -> Tally {
        match outcome {
            Ok(_) => Tally { converted: self.converted + 1, ..self },
            Err(e) => Tally {
                failed: self.failed + 1,
                errors: self.errors.push(error_line(name, e)),
                ..self
            },
        }
    }

    /// How many files the report accounts for.
    pub open spec fn examined(self) -> nat {
        self.converted + self.failed
    }
}

/// The report on `names`, converted in order with the given outcomes.
pub open spec fn tally_of(names: Seq<Seq<char>>, outcomes: Seq<Result<(), ConvertError>>) -> Tally
    decreases outcomes.len(),
{
    if outcomes.len() == 0 || names.len() < outcomes.len() {
        Tally::empty()
    } else {
        let n = outcomes.len() - 1;
        tally_of(names, outcomes.drop_last()).with(names[n], outcomes[n])
    }
}

/// How many of the outcomes are failures.
pub open spec fn failures(outcomes: Seq<Result<(), ConvertError>>) -> nat {
    outcomes.filter(|o: Result<(), ConvertError>| o is Err).len()
}

/// Every file is counted once, as converted or as failed, and every failure
/// has its line.
pub proof fn lemma_tally_counts(names: Seq<Seq<char>>, outcomes: Seq<Result<(), ConvertError>>)
    requires
        outcomes.len() <= names.len(),
    ensures
        tally_of(names, outcomes).examined() == outcomes.len(),
        tally_of(names, outcomes).failed == failures(outcomes),
        tally_of(names, outcomes).errors.len() == failures(outcomes),
    decreases outcomes.len(),
{
    reveal(Seq::filter);
    if outcomes.len() > 0 {
        lemma_tally_counts(names, outcomes.drop_last());
    }
}

/// Every line of a report belongs to one file: it is the line of a file
/// whose conversion failed, with that failure's text.
pub proof fn lemma_error_lines(
    names: Seq<Seq<char>>,
    outcomes: Seq<Result<(), ConvertError>>,
    k: int,
)
    requires
        outcomes.len() <= names.len(),
        0 <= k < tally_of(names, outcomes).errors.len(),
    ensures
        exists|i: int|
            0 <= i < outcomes.len() && (#[trigger] outcomes[i]) is Err && tally_of(
                names,
                outcomes,
            ).errors[k] == error_line(names[i], outcomes[i]->Err_0),
    decreases outcomes.len(),
{
    let n = outcomes.len() - 1;
    let front = outcomes.drop_last();
    if k < tally_of(names, front).errors.len() {
        lemma_error_lines(names, front, k);
        let i = choose|i: int|
            0 <= i < front.len() && (#[trigger] front[i]) is Err && tally_of(names, front).errors[k]
                == error_line(names[i], front[i]->Err_0);
        assert(outcomes[i] == front[i]);
    } else {
        assert(outcomes[n] is Err);
    }
}

/// The report of a whole listing: a batch over a directory with `n`
/// candidates accounts for exactly `n` files, whatever else is listed.
pub proof fn lemma_batch_examines_candidates(
    listing: Seq<Listed>,
    ext: Seq<char>,
    outcomes: Seq<Result<(), ConvertError>>,
)
    requires
        outcomes.len() == candidate_names(listing, ext).len(),
    ensures
        tally_of(candidate_names(listing, ext), outcomes).examined() == listing.filter(
            |e: Listed| is_candidate(e, ext),
        ).len(),
        tally_of(candidate_names(listing, ext), outcomes).examined() == selected(listing, ext).len(),
{
    lemma_tally_counts(candidate_names(listing, ext), outcomes);
    lemma_selected(listing, ext);
}

impl View for ConversionResult {
    type V = Tally;

    open spec fn view(&self) -> Tally {
        Tally {
            converted: self.converted as nat,
            failed: self.failed as nat,
            errors: self.errors@.map_values(|s: String| s@),
        }
    }
}

impl ConversionResult {
    /// A report on no file.
    pub fn new() -> (r: ConversionResult)
        ensures
            r@ == Tally::empty(),
    {
        let r = ConversionResult { converted: 0, failed: 0, errors: Vec::new() };
        assert(r@.errors =~= Seq::empty());
        r
    }

    /// Accounts for one more file: counts it, and keeps a line on its failure.
    pub fn record(&mut self, name: &str, outcome: Result<(), ConvertError>)
        requires
            old(self)@.examined() < usize::MAX,
        ensures
            final(self)@ == old(self)@.with(name@, outcome),
    {
        match outcome {
            Ok(_) => {
                self.converted = self.converted + 1;
            },
            Err(e) => {
                let mut line = String::from_str(name);
                line.append(": ");
                let text = e.message();
                line.append(text.as_str());
                let ghost before = self.errors@;
                self.failed = self.failed + 1;
                self.errors.push(line);
                assert(self.errors@.map_values(|s: String| s@) =~= before.map_values(
                    |s: String| s@,
                ).push(error_line(name@, e)));
            },
        }
    }
}

/// A file picked for conversion: its position in the listing, its name,
/// and the name of the file that the conversion writes beside it.
#[derive(Clone, Debug, PartialEq, Eq)]
pub struct FileCandidate {
    pub index: usize,
    pub name: String,
    pub target: String,
}

/// One batch under way: the listing it was started on, and what has been
/// reported of its candidates so far.
pub struct Batch {
    listing: Vec<Listed>,
    picks: Vec<usize>,
    report: ConversionResult,
    outcomes: Ghost<Seq<Result<(), ConvertError>>>,
}

/// The extension of the files that a batch converts.
pub open spec fn source_extension() -> Seq<char> {
    "webp"@
}

/// The extension of the files that a batch writes.
pub open spec fn target_extension() -> Seq<char> {
    "png"@
}

impl Batch {
    /// The listing that the batch was started on.
    pub closed spec fn listing(&self) -> Seq<Listed> {
        self.listing@
    }

    /// The outcomes reported so far, first file first.
    pub closed spec fn outcomes(&self) -> Seq<Result<(), ConvertError>> {
        self.outcomes@
    }

    /// The report so far.
    pub closed spec fn report(&self) -> Tally {
        self.report@
    }

    /// The batch is consistent: its report accounts for the outcomes taken
    /// so far, one for each of the first candidates.
    pub closed spec fn wf(&self) -> bool {
        &&& positions(self.picks@) == selected(self.listing@, source_extension())
        &&& self.outcomes@.len() <= self.picks@.len()
        &&& self.report@ == tally_of(self.names(), self.outcomes@)
    }

    /// The names of the files to convert, in listing order.
    pub open spec fn names(&self) -> Seq<Seq<char>> {
        candidate_names(self.listing(), source_extension())
    }

    /// Every candidate has its outcome.
    pub open spec fn is_done(&self) -> bool {
        self.outcomes().len() == self.names().len()
    }

    /// In a consistent batch the report counts each outcome once, and there
    /// are never more outcomes than candidates.
    pub proof fn lemma_consistent(&self)
        requires
            self.wf(),
        ensures
            self.outcomes().len() <= self.names().len(),
            self.names().len() == selected(self.listing(), source_extension()).len(),
            self.report() == tally_of(self.names(), self.outcomes()),
            self.report().examined() == self.outcomes().len(),
            self.report().errors.len() == self.report().failed,
    {
        lemma_selected(self.listing@, source_extension());
        assert(positions(self.picks@).len() == self.picks@.len());
        lemma_tally_counts(self.names(), self.outcomes@);
    }

    /// The position in the listing of the file to convert next, if any is
    /// left.
    pub fn pending(&self) -> (r: Option<usize>)
        requires
            self.wf(),
        ensures
            match r {
                Some(i) => {
                    &&& !self.is_done()
                    &&& i as int == selected(self.listing(), source_extension())[self.outcomes().len() as int]
                    &&& i < self.listing().len()
                    &&& is_candidate(self.listing()[i as int], source_extension())
                    &&& name_of(self.listing()[i as int]) == self.names()[self.outcomes().len() as int]
                },
                None => self.is_done(),
            },
    {
        let total: usize = self.picks.len();
        proof {
            self.lemma_consistent();
            lemma_selected(self.listing@, source_extension());
            assert(positions(self.picks@).len() == self.picks@.len());
            assert(self.report@.examined() <= total);
        }
        let done: usize = self.report.converted + self.report.failed;
        if done < total {
            let i: usize = self.picks[done];
            assert(positions(self.picks@)[done as int] == i as int);
            Some(i)
        } else {
            None
        }
    }

    /// The file to convert next, if any is left: where it stands in the
    /// listing, its name, and its name with the target extension in place
    /// of its own.
    pub fn candidate(&self) -> (r: Option<FileCandidate>)
        requires
            self.wf(),
        ensures
            match r {
                Some(c) => {
                    &&& !self.is_done()
                    &&& c.index as int == selected(self.listing(), source_extension())[self.outcomes().len() as int]
                    &&& c.name@ == self.names()[self.outcomes().len() as int]
                    &&& c.target@ == renamed(c.name@, target_extension())
                },
                None => self.is_done(),
            },
    {
        match self.pending() {
            None => None,
            Some(index) => match &self.listing[index] {
                Listed::Found { name, is_file } => Some(
                    FileCandidate {
                        index,
                        name: String::from_str(name.as_str()),
                        target: with_extension(name.as_str(), "png"),
                    },
                ),
                Listed::Unreadable(_) => None,
            },
        }
    }

    /// Takes the outcome of the pending file into the report. Where no file
    /// is pending, nothing changes and the answer is `false`.
    pub fn record(&mut self, outcome: Result<(), ConvertError>) -> (taken: bool)
        requires
            old(self).wf(),
        ensures
            final(self).wf(),
            final(self).listing() == old(self).listing(),
            taken == !old(self).is_done(),
            taken ==> final(self).outcomes() == old(self).outcomes().push(outcome),
            taken ==> final(self).report() == old(self).report().with(
                old(self).names()[old(self).outcomes().len() as int],
                outcome,
            ),
            !taken ==> final(self).outcomes() == old(self).outcomes() && final(self).report() == old(self).report(),
    {
        match self.pending() {
            None => false,
            Some(i) => {
                let total: usize = self.picks.len();
                proof {
                    self.lemma_consistent();
                    assert(positions(self.picks@).len() == self.picks@.len());
                    assert(self.report@.examined() < total);
                }
                let ghost earlier = self.outcomes@;
                match &self.listing[i] {
                    Listed::Found { name, is_file } => {
                        self.report.record(name.as_str(), outcome);
                    },
                    Listed::Unreadable(_) => {
                        self.report.record("", outcome);
                    },
                }
                self.outcomes = Ghost(earlier.push(outcome));
                assert(self.outcomes@.drop_last() =~= earlier);
                true
            },
        }
    }

    /// The report of the batch as it stands.
    pub fn finish(self) -> (r: ConversionResult)
        requires
            self.wf(),
        ensures
            r@ == tally_of(self.names(), self.outcomes()),
            r@.examined() == self.outcomes().len(),
            self.is_done() ==> r@.examined() == self.listing().filter(
                |e: Listed| is_candidate(e, source_extension()),
            ).len(),
    {
        proof {
            self.lemma_consistent();
            lemma_selected(self.listing@, source_extension());
        }
        self.report
    }
}

/// Starts a batch on a folder: `folder` is what the path was found to be,
/// `listing` the outcome of reading it. Fails with `InvalidPath` unless the
/// path is a directory, and with `Io` where the directory could not be read.
pub fn convert_webp_to_png(folder: PathKind, listing: Result<Vec<Listed>, String>) -> (r: Result<
    Batch,
    ConvertError,
>)
    ensures
        folder != PathKind::Directory ==> r == Err::<Batch, ConvertError>(ConvertError::InvalidPath),
        folder == PathKind::Directory ==> match listing {
            Ok(entries) => r matches Ok(b) && b.wf() && b.listing() == entries@
                && b.outcomes().len() == 0 && b.report() == Tally::empty(),
            Err(cause) => r matches Err(e) && e is Io && message_of(e)
                == "Ошибка чтения папки: "@ + cause@,
        },
{
    if folder != PathKind::Directory {
        return Err(ConvertError::InvalidPath);
    }
    match listing {
        Err(cause) => Err(io_failure("Ошибка чтения папки: ", cause.as_str())),
        Ok(entries) => {
            let picks = select(&entries, "webp");
            let batch = Batch {
                listing: entries,
                picks,
                report: ConversionResult::new(),
                outcomes: Ghost(Seq::empty()),
            };
            Ok(batch)
        },
    }
}

} // verus!
