use vstd::prelude::*;
use vstd::string::StringExecFns;

verus! {

/// The command line: an optional command.
pub struct Cli {
    pub command: Option<CliCommand>,
}

/// The commands, each with the number of items to produce.
pub enum CliCommand {
    ProduceAreas { amount: u32 },
    ProduceAreasAsync { amount: u32 },
    ProduceCircles { amount: u32, json: bool },
}

/// Circle listings on the command line must ask for fewer circles than this.
pub const MAX_CIRCLE_AMOUNT: u32 = 1000000;

/// Exit code of a user error.
pub const USER_EXIT_CODE: i32 = 8;

/// Exit code of an internal error.
pub const INTERNAL_EXIT_CODE: i32 = 128;

/// An error of the command line: the user asked for something invalid, or
/// something failed inside.
pub enum CliError {
    User(String),
    Internal(String),
}

/// The message of a user error on a circle amount out of bounds.
pub open spec fn circle_amount_message() -> Seq<char> {
    "amount must be smaller or equal to 1000000"@
}

/// The message of an internal error on a failed serialization, with its detail.
pub open spec fn serialization_message(detail: Seq<char>) -> Seq<char> {
    "serialization failed with: "@ + detail
}

impl CliError {
    /// The process exit code: one for user errors, another for internal ones.
    pub fn exit_code(&self) -> (r: i32)
        ensures
            r == (match self {
                CliError::User(_) => USER_EXIT_CODE,
                CliError::Internal(_) => INTERNAL_EXIT_CODE,
            }),
    {
        match self {
            CliError::User(_) => USER_EXIT_CODE,
            CliError::Internal(_) => INTERNAL_EXIT_CODE,
        }
    }
}

/// `serde_json::Error` as an opaque value.
#[verifier::external_type_specification]
#[verifier::external_body]
pub struct ExJsonError(serde_json::Error);

impl From<serde_json::Error> for CliError {
    /// A failed serialization is an internal error whose message carries the
    /// serializer's own description.
    fn from(value: serde_json::Error) -> (r: CliError)
        ensures
            r matches CliError::Internal(m) && exists|detail: Seq<char>|
                m@ == serialization_message(detail),
    {
        let detail = value.to_string();
        let message = String::from_str("serialization failed with: ").concat(detail.as_str());
        assert(message@ == serialization_message(detail@));
        CliError::Internal(message)
    }
}

// The message holds the serializer's own text, which nothing states, so no
// spec of the whole result is claimed; `from` above says what is known.
impl vstd::std_specs::convert::FromSpecImpl<serde_json::Error> for CliError {
    open spec fn obeys_from_spec() -> bool {
        false
    }

    open spec fn from_spec(v: serde_json::Error) -> CliError {
        arbitrary()
    }
}

/// Checks the amount of a circle listing: below the bound it is handed
/// back, otherwise it is a user error.
pub fn validate_circle_amount(amount: u32) -> (r: Result<u32, CliError>)
    ensures
        amount < MAX_CIRCLE_AMOUNT ==> r == Ok::<u32, CliError>(amount),
        amount >= MAX_CIRCLE_AMOUNT ==> (r matches Err(CliError::User(m))
            && m@ == circle_amount_message()),
{
    if amount >= MAX_CIRCLE_AMOUNT {
        Err(CliError::User(String::from_str("amount must be smaller or equal to 1000000")))
    } else {
        Ok(amount)
    }
}

} // verus!
