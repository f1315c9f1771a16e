//! From what the model's provider answered to the command, or to the reason
//! why there is none.

use crate::extract::{command_of, extract_command};
use vstd::prelude::*;

verus! {

/// Why no command came out of a request.
#[derive(Debug, PartialEq, Eq)]
pub enum GenerateError {
    /// The call to the provider failed; the field holds the cause.
    RequestFailed(String),
    /// The provider answered without a single candidate.
    NoResponse,
    /// The reply holds no command.
    NoCommand,
}

impl GenerateError {
    /// The line that tells a user of this error.
    pub open spec fn message_text(self) -> Seq<char> {
        match self {
            GenerateError::RequestFailed(_) => "Unable to generate command. OpenAI request failed."@,
            GenerateError::NoResponse => "Unable to generate command. No response from model."@,
            GenerateError::NoCommand => "No command could be generated for the action."@,
        }
    }

    /// The line that tells a user of this error.
    pub fn message(&self) -> (r: String)
        ensures
            r@ == self.message_text(),
    {
        match self {
            GenerateError::RequestFailed(_) => {
                "Unable to generate command. OpenAI request failed.".to_owned()
            },
            GenerateError::NoResponse => {
                "Unable to generate command. No response from model.".to_owned()
            },
            GenerateError::NoCommand => "No command could be generated for the action.".to_owned(),
        }
    }
}

/// The text of a candidate: a candidate without content counts as empty.
pub open spec fn candidate_text(candidate: Option<String>) -> Seq<char> {
    match candidate {
        Some(text) => text@,
        None => Seq::empty(),
    }
}

/// What a provider's answer comes to. A failed call is reported with its
/// cause, an answer without candidates as such; otherwise the last
/// candidate's text decides.
pub open spec fn outcome_of(outcome: Result<Vec<Option<String>>, String>) -> Result<
    Seq<char>,
    GenerateError,
> {
    match outcome {
        Err(cause) => Err(GenerateError::RequestFailed(cause)),
        Ok(candidates) => if candidates@.len() == 0 {
            Err(GenerateError::NoResponse)
        } else {
            match command_of(candidate_text(candidates@.last())) {
                Some(command) => Ok(command),
                None => Err(GenerateError::NoCommand),
            }
        },
    }
}

/// The command in the provider's answer. `outcome` is either the contents
/// of the candidates that came back, in their order, or the cause of the
/// call's failure.
pub fn command_from_response(outcome: Result<Vec<Option<String>>, String>) -> (r: Result<
    String,
    GenerateError,
>)
    ensures
        match outcome_of(outcome) {
            Ok(command) => r.is_ok() && r.unwrap()@ == command,
            Err(e) => r == Err::<String, GenerateError>(e),
        },
{
    match outcome {
        Err(cause) => Err(GenerateError::RequestFailed(cause)),
        Ok(candidates) => {
            let mut candidates = candidates;
            match candidates.pop() {
                None => Err(GenerateError::NoResponse),
                Some(choice) => {
                    let found = match choice {
                        Some(text) => extract_command(text.as_str()),
                        None => extract_command(""),
                    };
                    proof {
                        reveal_strlit("");
                        assert(""@ =~= Seq::<char>::empty());
                    }
                    match found {
                        Some(command) => Ok(command),
                        None => Err(GenerateError::NoCommand),
                    }
                },
            }
        },
    }
}

} // verus!
