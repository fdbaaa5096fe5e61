//! The sync of the whole meal database, letter after letter: which letter is
//! fetched and stored next, and when the sync is over.

use vstd::prelude::*;

use super::input::{ingestion_letters_spec, UseCaseError};

verus! {

/// A sync under way: the index, in `ingestion_letters_spec`, of the letter
/// whose recipes are being fetched and stored.
pub struct IngestionRun {
    index: u8,
}

/// What a sync does next.
pub enum IngestionStep {
    /// Fetch the recipes of `letter` and store them, then hand the outcome of
    /// both to `run.after_letter`.
    SyncLetter { run: IngestionRun, letter: char },
    /// The sync is over, with its result.
    Finished(Result<(), UseCaseError>),
}

impl IngestionRun {
    #[verifier::type_invariant]
    spec fn within_letters(self) -> bool {
        self.index < 26
    }

    /// The index of the letter being synced.
    pub closed spec fn index(&self) -> nat {
        self.index as nat
    }

    /// Starts a sync at the first letter, `a`.
    pub fn start() -> (r: IngestionStep)
        ensures
            r matches IngestionStep::SyncLetter { run, letter } && run.index() == 0 && letter
                == ingestion_letters_spec()[0],
    {
        IngestionStep::SyncLetter { run: IngestionRun { index: 0 }, letter: 'a' }
    }

    /// Takes the outcome of fetching and storing the current letter: a failure
    /// ends the sync with that error; a success moves on to the next letter,
    /// or ends the sync successfully after the last one.
    pub fn after_letter(self, outcome: Result<(), UseCaseError>) -> (r: IngestionStep)
        ensures
            outcome matches Err(e) ==> r == IngestionStep::Finished(Err(e)),
            outcome is Ok && self.index() + 1 < ingestion_letters_spec().len() ==> (r matches IngestionStep::SyncLetter {
                run,
                letter,
            } && run.index() == self.index() + 1 && letter == ingestion_letters_spec()[self.index() + 1int]),
            outcome is Ok && self.index() + 1 >= ingestion_letters_spec().len() ==> r
                == IngestionStep::Finished(Ok(())),
    {
        proof {
            use_type_invariant(&self);
        }
        match outcome {
            Err(e) => IngestionStep::Finished(Err(e)),
            Ok(()) => {
                if self.index + 1 < 26 {
                    let index: u8 = self.index + 1;
                    let letter = (97 + index) as char;
                    IngestionStep::SyncLetter { run: IngestionRun { index }, letter }
                } else {
                    IngestionStep::Finished(Ok(()))
                }
            },
        }
    }
}

} // verus!
