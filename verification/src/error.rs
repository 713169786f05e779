//! The ways in which a call on the store fails.

use vstd::prelude::*;
use vstd::string::*;

verus! {

/// Why a call was refused. Each failure ends the call and leaves the state
/// as it was before the call.
#[derive(Clone, Copy, Debug, PartialEq, Eq, Structural)]
pub enum StoreError {
    /// Construction was asked for on an instance that is already constructed.
    AlreadyInitialized,
    /// The instance was used before it was constructed.
    Uninitialized,
    /// A mutating call came from a principal other than the owner.
    Unauthorized,
    /// A slot was looked up that the store does not have.
    IndexOutOfRange,
    /// The slot holds a record of another generation than the accessor expects.
    VersionMismatch,
}

impl StoreError {
    /// The text that `message` returns for each failure.
    pub open spec fn spec_message(self) -> Seq<char> {
        match self {
            StoreError::AlreadyInitialized => "Already initialized"@,
            StoreError::Uninitialized =>
                "Contract must be initialized before usage with 'new' function call."@,
            StoreError::Unauthorized =>
                "Only contract owner can sign transactions for this method."@,
            StoreError::IndexOutOfRange => "Invalid index, buddy."@,
            StoreError::VersionMismatch => "Error retrieving version."@,
        }
    }

    /// The message with which a host aborts the call.
    pub fn message(&self) -> (text: String)
        ensures
            text@ == self.spec_message(),
    {
        match self {
            StoreError::AlreadyInitialized => "Already initialized".to_owned(),
            StoreError::Uninitialized =>
                "Contract must be initialized before usage with 'new' function call.".to_owned(),
            StoreError::Unauthorized =>
                "Only contract owner can sign transactions for this method.".to_owned(),
            StoreError::IndexOutOfRange => "Invalid index, buddy.".to_owned(),
            StoreError::VersionMismatch => "Error retrieving version.".to_owned(),
        }
    }
}

} // verus!
