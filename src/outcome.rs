//! What the fetch and the extraction handed back, and how each is judged.
use vstd::prelude::*;
use crate::text::{extracted_text, output_text, lossy_text, trimmed};

verus! {

/// What a single GET of a task's URL came back with.
pub enum FetchOutcome {
    /// The server answered with this status code and body.
    Response { status: u16, body: String },
    /// No answer was had: name resolution, connection or timeout failed.
    Transport(String),
}

/// Why a fetch does not count as content.
#[derive(Debug)]
pub enum FetchError {
    /// The server answered with a status outside 200 to 299.
    Status(u16),
    /// The request did not complete.
    Transport(String),
}

/// A status code in the success class.
pub open spec fn is_success_status(status: u16) -> bool {
    200 <= status <= 299
}

/// Whether `status` is in the success class (200 to 299).
pub fn status_is_success(status: u16) -> (r: bool)
    ensures
        r == is_success_status(status),
{
    200 <= status && status <= 299
}

impl FetchOutcome {
    /// The body that counts as content, if the fetch succeeded.
    pub open spec fn content(&self) -> Option<Seq<char>> {
        match self {
            FetchOutcome::Response { status, body } => if is_success_status(*status) {
                Some(body@)
            } else {
                None
            },
            FetchOutcome::Transport(_) => None,
        }
    }

    /// `r` is how this outcome is judged: the body on a success status,
    /// else the status or the transport failure.
    pub open spec fn judged(&self, r: Result<String, FetchError>) -> bool {
        match self {
            FetchOutcome::Response { status, body } => if is_success_status(*status) {
                r matches Ok(b) && b@ == body@
            } else {
                r matches Err(FetchError::Status(s)) && s == *status
            },
            FetchOutcome::Transport(m) => r matches Err(FetchError::Transport(e)) && e@ == m@,
        }
    }
}

/// The content of a fetch, or why there is none.
pub fn classify_fetch(outcome: FetchOutcome) -> (r: Result<String, FetchError>)
    ensures
        outcome.judged(r),
{
    match outcome {
        FetchOutcome::Response { status, body } => {
            if status_is_success(status) {
                Ok(body)
            } else {
                Err(FetchError::Status(status))
            }
        },
        FetchOutcome::Transport(m) => Err(FetchError::Transport(m)),
    }
}

/// What running the extraction program came back with.
pub enum ExtractOutcome {
    /// The program ran to its end with this exit status and output.
    Exited { success: bool, stdout: Vec<u8>, stderr: Vec<u8> },
    /// The program could not be started or fed its input.
    NotRun(String),
}

/// Why an extraction gives no value.
#[derive(Debug)]
pub enum ExtractError {
    /// The program exited with a failure status; its error output.
    NonZeroExit(String),
    /// The program could not be started or fed its input.
    NotRun(String),
}

impl ExtractOutcome {
    /// The extracted value, if the program succeeded.
    pub open spec fn value(&self) -> Option<Seq<char>> {
        match self {
            ExtractOutcome::Exited { success, stdout, stderr: _ } => if *success {
                Some(trimmed(lossy_text(stdout@)))
            } else {
                None
            },
            ExtractOutcome::NotRun(_) => None,
        }
    }

    /// `r` is how this outcome is judged: the trimmed output on success,
    /// else the error output or the reason the program did not run.
    pub open spec fn judged(&self, r: Result<String, ExtractError>) -> bool {
        match self {
            ExtractOutcome::Exited { success, stdout, stderr } => if *success {
                r matches Ok(v) && v@ == trimmed(lossy_text(stdout@))
            } else {
                r matches Err(ExtractError::NonZeroExit(e)) && e@ == lossy_text(stderr@)
            },
            ExtractOutcome::NotRun(m) => r matches Err(ExtractError::NotRun(e)) && e@ == m@,
        }
    }
}

/// The extracted value of a run of the extraction program, or why there is
/// none.
pub fn classify_extract(outcome: ExtractOutcome) -> (r: Result<String, ExtractError>)
    ensures
        outcome.judged(r),
{
    match outcome {
        ExtractOutcome::Exited { success, stdout, stderr } => {
            if success {
                Ok(extracted_text(&stdout))
            } else {
                Err(ExtractError::NonZeroExit(output_text(&stderr)))
            }
        },
        ExtractOutcome::NotRun(m) => Err(ExtractError::NotRun(m)),
    }
}

} // verus!
