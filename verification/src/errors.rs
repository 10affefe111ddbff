//! The two families of errors: what validation rejects before anything is
//! changed, and what can go wrong while a command runs.

use vstd::prelude::*;

verus! {

/// The outside error that file operations report.
#[verifier::external_type_specification]
#[verifier::external_body]
pub struct ExIoError(std::io::Error);

/// A reason for which a command is rejected before it changes anything.
#[derive(Debug, Clone, Copy, PartialEq, Eq, Structural)]
pub enum ErrorValidation {
    /// The entry name is empty.
    EmptyName,
    /// The entry name has more characters than the vault allows.
    LongName,
    /// The secret does not meet the configured strength policy.
    UnrespectedPasswordProtocol,
    /// No master key has been provisioned yet.
    UnprovidedMasterKey,
    /// The vault is not open for this invocation.
    NoActiveSession,
    /// A new entry would silently replace one of the same name.
    EntryExists,
    /// A retrieval names an entry that the vault does not hold.
    EntryNotFound,
    /// The data store is not where the configuration says.
    StoragePathNotFound,
}

impl ErrorValidation {
    /// The single line shown to the operator for this rejection.
    pub open spec fn message_text(self) -> Seq<char> {
        match self {
            ErrorValidation::LongName => "Long name expected no more than 60 caracters (example))"@,
            ErrorValidation::EmptyName => "Provid a name to be associated with Your Password"@,
            ErrorValidation::UnrespectedPasswordProtocol => "Password does not respect the the security protocol"@,
            ErrorValidation::UnprovidedMasterKey => "Master key is not provided"@,
            ErrorValidation::NoActiveSession => "No active session, open the vault first"@,
            ErrorValidation::EntryExists => "An entry with this name already exists"@,
            ErrorValidation::EntryNotFound => "No match for the given entry."@,
            ErrorValidation::StoragePathNotFound => "Storage Path not found"@,
        }
    }

    /// Renders the rejection as the line shown to the operator.
    pub fn message(&self) -> (text: String)
        ensures
            text@ == self.message_text(),
    {
        match self {
            ErrorValidation::LongName => String::from_str(
                "Long name expected no more than 60 caracters (example))",
            ),
            ErrorValidation::EmptyName => String::from_str(
                "Provid a name to be associated with Your Password",
            ),
            ErrorValidation::UnrespectedPasswordProtocol => String::from_str(
                "Password does not respect the the security protocol",
            ),
            ErrorValidation::UnprovidedMasterKey => String::from_str("Master key is not provided"),
            ErrorValidation::NoActiveSession => String::from_str(
                "No active session, open the vault first",
            ),
            ErrorValidation::EntryExists => String::from_str(
                "An entry with this name already exists",
            ),
            ErrorValidation::EntryNotFound => String::from_str("No match for the given entry."),
            ErrorValidation::StoragePathNotFound => String::from_str("Storage Path not found"),
        }
    }
}

/// A failure met while a command runs.
#[derive(Debug)]
pub enum ErrorExecution {
    /// A file could not be read or written.
    IoError(std::io::Error),
    /// Hex text, or the key material it stands for, is malformed.
    DecodeFailure,
    /// The cipher cannot process the given data.
    CipherFailure,
    /// The store holds no entry of the requested name.
    NoMatchingEntry,
    /// The store failed in a way other than a missing row.
    StorageFailure,
    /// The master password and its confirmation differ.
    PasswordMismatch,
    /// The store was written but the backup that should follow it was not.
    IncompleteBackup,
    /// Anything else.
    Unknown,
}

/// What stands in front of the operating system's own words in the message
/// of an I/O failure.
pub open spec fn io_message_prefix() -> Seq<char> {
    "I/O Error: "@
}

impl ErrorExecution {
    /// The line shown to the operator, for every failure whose wording does
    /// not depend on the operating system.
    pub open spec fn fixed_message_text(self) -> Seq<char> {
        match self {
            ErrorExecution::IoError(_) => io_message_prefix(),
            ErrorExecution::DecodeFailure => "Stored hex text or key material is malformed"@,
            ErrorExecution::CipherFailure => "The cipher could not process the data"@,
            ErrorExecution::NoMatchingEntry => "No match for the given entry."@,
            ErrorExecution::StorageFailure => "The entry store reported an error"@,
            ErrorExecution::PasswordMismatch => "The two master passwords do not match"@,
            ErrorExecution::IncompleteBackup => "The entry was stored but the backup is incomplete"@,
            ErrorExecution::Unknown => "Something unexpected happened during execution"@,
        }
    }

    /// Whether `text` is a rendering of this failure: the fixed line, which
    /// for an I/O failure is followed by the operating system's description.
    pub open spec fn is_message(self, text: Seq<char>) -> bool {
        match self {
            ErrorExecution::IoError(_) => {
                &&& text.len() >= io_message_prefix().len()
                &&& text.subrange(0, io_message_prefix().len() as int) == io_message_prefix()
            },
            _ => text == self.fixed_message_text(),
        }
    }

    /// Renders the failure as the single line shown to the operator.
    pub fn message(&self) -> (text: String)
        ensures
            self.is_message(text@),
    {
        match self {
            ErrorExecution::IoError(e) => {
                let detail = io_error_text(e);
                let text = String::from_str("I/O Error: ").concat(detail.as_str());
                assert(text@.subrange(0, io_message_prefix().len() as int) =~= io_message_prefix());
                text
            },
            ErrorExecution::DecodeFailure => String::from_str(
                "Stored hex text or key material is malformed",
            ),
            ErrorExecution::CipherFailure => String::from_str(
                "The cipher could not process the data",
            ),
            ErrorExecution::NoMatchingEntry => String::from_str("No match for the given entry."),
            ErrorExecution::StorageFailure => String::from_str("The entry store reported an error"),
            ErrorExecution::PasswordMismatch => String::from_str(
                "The two master passwords do not match",
            ),
            ErrorExecution::IncompleteBackup => String::from_str(
                "The entry was stored but the backup is incomplete",
            ),
            ErrorExecution::Unknown => String::from_str(
                "Something unexpected happened during execution",
            ),
        }
    }
}

impl From<std::io::Error> for ErrorExecution {
    fn from(err: std::io::Error) -> (e: ErrorExecution) {
        ErrorExecution::IoError(err)
    }
}

impl vstd::std_specs::convert::FromSpecImpl<std::io::Error> for ErrorExecution {
    open spec fn obeys_from_spec() -> bool {
        true
    }

    open spec fn from_spec(err: std::io::Error) -> ErrorExecution {
        ErrorExecution::IoError(err)
    }
}

/// Calls the `Display` formatting of `std::io::Error`. The wording comes
/// from the operating system, so nothing is claimed of the text.
#[verifier::external_body]
fn io_error_text(e: &std::io::Error) -> (text: String) {
    format!("{}", e)
}

} // verus!
