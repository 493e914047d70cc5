//! OCR task dispatcher: fixed-configuration recognition requests, the state
//! machine of a submission, and the single-slot result mailbox that the
//! background task fills and the render loop polls.

use vstd::prelude::*;

verus! {

/// Recognition languages a request can ask for. The fixed configuration asks
/// for English only.
#[derive(Clone, Copy, PartialEq, Eq, Structural, Debug)]
pub enum Language {
    English,
}

/// Confidence threshold carried by every request, in hundredths: 80 stands
/// for a threshold of 0.80.
pub const CONFIDENCE_THRESHOLD_HUNDREDTHS: u8 = 80;

/// Timeout carried by every request, in seconds; the engine itself enforces
/// it, the dispatcher has no cancellation of its own.
pub const TIMEOUT_SECS: u64 = 30;

/// A recognition request handed to the background OCR task.
pub struct OcrRequest {
    pub path: String,
    pub languages: Vec<Language>,
    pub confidence_threshold_hundredths: u8,
    pub timeout_secs: u64,
}

/// The one request shape the dispatcher ever builds: the given path, English
/// only, the fixed confidence threshold and the fixed timeout.
pub open spec fn is_default_request(req: OcrRequest, path: Seq<char>) -> bool {
    &&& req.path@ == path
    &&& req.languages@ == seq![Language::English]
    &&& req.confidence_threshold_hundredths == CONFIDENCE_THRESHOLD_HUNDREDTHS
    &&& req.timeout_secs == TIMEOUT_SECS
}

/// What a finished recognition pass produced: primary text, secondary text
/// and an optional numeric reading in hundredths, or a failure description.
#[derive(PartialEq, Eq, Debug)]
pub enum OcrOutcome {
    Success(String, String, Option<i64>),
    Failure(String),
}

/// The outcome recorded for an engine response: a success tuple becomes
/// `Success`, an error description becomes `Failure`.
pub open spec fn outcome_of(response: Result<(String, String, Option<i64>), String>) -> OcrOutcome {
    match response {
        Ok(t) => OcrOutcome::Success(t.0, t.1, t.2),
        Err(e) => OcrOutcome::Failure(e),
    }
}

/// Single-slot mailbox holding the most recent OCR outcome. The background
/// task stores into it, the render loop takes from it; when two writes race,
/// the last writer wins.
pub struct ResultSlot {
    value: Option<OcrOutcome>,
}

impl ResultSlot {
    /// The outcome currently held, if any.
    pub closed spec fn contents(self) -> Option<OcrOutcome> {
        self.value
    }

    /// A fresh, empty mailbox.
    pub fn empty() -> (r: Self)
        ensures
            r.contents() is None,
    {
        ResultSlot { value: None }
    }

    /// Stores `outcome`, discarding whatever was held before.
    pub fn store(&mut self, outcome: OcrOutcome)
        ensures
            final(self).contents() == Some(outcome),
    {
        self.value = Some(outcome);
    }

    /// Removes and returns the held outcome, leaving the mailbox empty.
    pub fn take(&mut self) -> (r: Option<OcrOutcome>)
        ensures
            r == old(self).contents(),
            final(self).contents() is None,
    {
        self.value.take()
    }
}

/// Phase of the most recent OCR submission; both outcomes are terminal and
/// there is no cancelled phase.
#[derive(Clone, Copy, PartialEq, Eq, Structural, Debug)]
pub enum SubmissionState {
    Idle,
    Requested,
    Completed,
    Failed,
}

/// OCR task dispatcher: builds fixed-configuration requests, tracks the phase
/// of the most recent submission, and owns the result mailbox.
pub struct Dispatcher {
    state: SubmissionState,
    slot: ResultSlot,
}

impl Dispatcher {
    /// Phase of the most recent submission.
    pub closed spec fn phase(self) -> SubmissionState {
        self.state
    }

    /// The outcome held in the result mailbox.
    pub closed spec fn result(self) -> Option<OcrOutcome> {
        self.slot.contents()
    }

    /// A fresh dispatcher: idle, with an empty mailbox.
    pub fn new() -> (r: Self)
        ensures
            r.phase() == SubmissionState::Idle,
            r.result() is None,
    {
        Dispatcher { state: SubmissionState::Idle, slot: ResultSlot::empty() }
    }

    /// Builds the request for `path` with the fixed configuration and records
    /// that a submission is outstanding. The caller hands the request to the
    /// background task; this call itself never blocks or waits.
    pub fn submit(&mut self, path: &String) -> (r: OcrRequest)
        ensures
            is_default_request(r, path@),
            final(self).phase() == SubmissionState::Requested,
            final(self).result() == old(self).result(),
    {
        self.state = SubmissionState::Requested;
        let mut languages: Vec<Language> = Vec::new();
        languages.push(Language::English);
        proof {
            assert(languages@ =~= seq![Language::English]);
        }
        OcrRequest {
            path: path.clone(),
            languages,
            confidence_threshold_hundredths: CONFIDENCE_THRESHOLD_HUNDREDTHS,
            timeout_secs: TIMEOUT_SECS,
        }
    }

    /// The engine could not be constructed: the submission is aborted and no
    /// result becomes pending, so the mailbox is untouched.
    pub fn engine_unavailable(&mut self)
        ensures
            final(self).phase() == SubmissionState::Failed,
            final(self).result() == old(self).result(),
    {
        self.state = SubmissionState::Failed;
    }

    /// Records the engine's response in the mailbox (last writer wins) and
    /// moves the submission to its terminal phase.
    pub fn finish(&mut self, response: Result<(String, String, Option<i64>), String>)
        ensures
            final(self).phase() == (if response is Ok {
                SubmissionState::Completed
            } else {
                SubmissionState::Failed
            }),
            final(self).result() == Some(outcome_of(response)),
    {
        let outcome = match response {
            Ok((primary, secondary, numeric)) => {
                self.state = SubmissionState::Completed;
                OcrOutcome::Success(primary, secondary, numeric)
            },
            Err(description) => {
                self.state = SubmissionState::Failed;
                OcrOutcome::Failure(description)
            },
        };
        self.slot.store(outcome);
    }

    /// Removes and returns the latest outcome, if any: the render loop's
    /// once-per-frame poll of the mailbox.
    pub fn poll(&mut self) -> (r: Option<OcrOutcome>)
        ensures
            r == old(self).result(),
            final(self).result() is None,
            final(self).phase() == old(self).phase(),
    {
        self.slot.take()
    }

    /// Phase of the most recent submission, for display.
    pub fn current_phase(&self) -> (r: SubmissionState)
        ensures
            r == self.phase(),
    {
        self.state
    }
}

} // verus!
