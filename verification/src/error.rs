//! What can go wrong while a job is completed.
use vstd::prelude::*;
use vstd::string::*;

verus! {

/// Why a completion, or the coordination of a schedule, did not go through.
#[derive(Debug, PartialEq, Eq)]
pub enum Error {
    /// A store failed to read or write; the text is the store's own.
    Persistence(String),
    /// The store failed to write the completed job.
    AddCompleted { job: u128, cause: String },
    /// The failure handler of a schedule could not be found or enqueued.
    EscalationDispatch(String),
    /// The next occurrence of a schedule could not be pushed.
    SchedulePush(String),
    /// A reply came that does not answer what was asked.
    UnexpectedReply,
}

/// The text that `uuid` prints for the identifier with the given 128 bits.
pub uninterp spec fn hyphenated(id: u128) -> Seq<char>;

/// `Display` of `uuid::Uuid`, on the identifier that `uuid::Uuid::from_u128` makes of the bits.
#[verifier::external_body]
fn job_id_text(id: u128) -> (text: String)
    ensures
        text@ == hyphenated(id),
{
    uuid::Uuid::from_u128(id).to_string()
}

impl Clone for Error {
    fn clone(&self) -> (copy: Self)
        ensures
            copy == *self,
    {
        match self {
            Error::Persistence(cause) => Error::Persistence(cause.clone()),
            Error::AddCompleted { job, cause } => Error::AddCompleted {
                job: *job,
                cause: cause.clone(),
            },
            Error::EscalationDispatch(cause) => Error::EscalationDispatch(cause.clone()),
            Error::SchedulePush(cause) => Error::SchedulePush(cause.clone()),
            Error::UnexpectedReply => Error::UnexpectedReply,
        }
    }
}

impl Error {
    /// The text of the error, as it is shown and as it is recorded on a schedule that the
    /// error disables.
    pub open spec fn text(self) -> Seq<char> {
        match self {
            Error::Persistence(cause) => cause@,
            Error::AddCompleted { job, cause } => "Could not add completed job "@ + hyphenated(job)
                + ": "@ + cause@,
            Error::EscalationDispatch(cause) => "Could not trigger error handler: "@ + cause@,
            Error::SchedulePush(cause) => cause@,
            Error::UnexpectedReply => "Unexpected reply"@,
        }
    }

    /// The text of the error.
    pub fn message(&self) -> (text: String)
        ensures
            text@ == self.text(),
    {
        match self {
            Error::Persistence(cause) => cause.clone(),
            Error::AddCompleted { job, cause } => {
                let mut text = String::from_str("Could not add completed job ");
                let id = job_id_text(*job);
                text.append(id.as_str());
                text.append(": ");
                text.append(cause.as_str());
                text
            },
            Error::EscalationDispatch(cause) => {
                let mut text = String::from_str("Could not trigger error handler: ");
                text.append(cause.as_str());
                text
            },
            Error::SchedulePush(cause) => cause.clone(),
            Error::UnexpectedReply => String::from_str("Unexpected reply"),
        }
    }
}

} // verus!
