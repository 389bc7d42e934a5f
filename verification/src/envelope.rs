//! The uniform response envelope.

use vstd::prelude::*;

verus! {

/// Result carrier handed to the user interface by every proxy command.
///
/// A well-formed envelope carries either a payload or an error text, never
/// both and never neither, and `success` says which of the two it is.
#[derive(Debug, PartialEq)]
pub struct ApiResponse<T> {
    pub success: bool,
    pub data: Option<T>,
    pub error: Option<String>,
}

impl<T> ApiResponse<T> {
    /// The envelope invariant: `success` with a payload and no error, or
    /// failure with an error and no payload.
    pub open spec fn well_formed(&self) -> bool {
        &&& self.success <==> self.data is Some
        &&& self.success <==> self.error is None
    }

    /// This envelope reports success and carries exactly `data`.
    pub open spec fn succeeded_with(&self, data: T) -> bool {
        &&& self.success
        &&& self.data == Some(data)
        &&& self.error is None
    }

    /// This envelope reports success: it carries a payload and no error.
    pub open spec fn succeeded(&self) -> bool {
        &&& self.success
        &&& self.data is Some
        &&& self.error is None
    }

    /// This envelope reports failure and carries exactly the text `message`.
    pub open spec fn failed_with(&self, message: Seq<char>) -> bool {
        &&& !self.success
        &&& self.data is None
        &&& self.error matches Some(text)
        &&& text@ == message
    }

    /// Wraps a payload into a successful envelope.
    pub fn ok(data: T) -> (envelope: Self)
        ensures
            envelope.succeeded_with(data),
            envelope.well_formed(),
    {
        ApiResponse { success: true, data: Some(data), error: None }
    }

    /// Wraps an error text into a failed envelope.
    pub fn fail(message: String) -> (envelope: Self)
        ensures
            envelope.failed_with(message@),
            envelope.error == Some(message),
            envelope.well_formed(),
    {
        ApiResponse { success: false, data: None, error: Some(message) }
    }
}

/// In a well-formed envelope exactly one of payload and error is present,
/// and `success` holds exactly when it is the payload.
pub proof fn lemma_exactly_one_of_data_and_error<T>(envelope: ApiResponse<T>)
    requires
        envelope.well_formed(),
    ensures
        (envelope.data is Some) != (envelope.error is Some),
        envelope.success == (envelope.data is Some),
        envelope.success == (envelope.error is None),
{
}

/// An envelope that succeeded with some payload, or failed with some text,
/// is well formed, and the two cases exclude each other.
pub proof fn lemma_outcomes_are_well_formed<T>(envelope: ApiResponse<T>, data: T, message: Seq<char>)
    ensures
        envelope.succeeded_with(data) ==> envelope.well_formed(),
        envelope.failed_with(message) ==> envelope.well_formed(),
        !(envelope.succeeded_with(data) && envelope.failed_with(message)),
{
}

} // verus!
