//! The two kinds of failure an operation can end in.

use vstd::prelude::*;

verus! {

/// Declares `minreq::Error`, the error of the HTTP transport, as a type
/// whose inside is not looked at: the library carries such a value from the
/// reply to the failure it reports, and displays it, and does no more.
#[verifier::external_type_specification]
#[verifier::external_body]
pub struct ExTransportError(minreq::Error);

/// Why an operation failed.
#[derive(Debug)]
pub enum Failure {
    /// The HTTP call itself failed, or its body could not be read; the
    /// transport's own error is kept as it came.
    ClientError(minreq::Error),
    /// A condition worth reporting to the user: a missing field, a rejected
    /// request, a resource that does not exist where one is required.
    InputError(String),
}

/// A [`Failure`] with its message as a sequence of characters: its view.
pub enum FailureModel {
    ClientError(minreq::Error),
    InputError(Seq<char>),
}

impl View for Failure {
    type V = FailureModel;

    open spec fn view(&self) -> FailureModel {
        match *self {
            Failure::ClientError(err) => FailureModel::ClientError(err),
            Failure::InputError(message) => FailureModel::InputError(message@),
        }
    }
}

impl From<minreq::Error> for Failure {
    fn from(err: minreq::Error) -> (failure: Failure) {
        Failure::ClientError(err)
    }
}

impl vstd::std_specs::convert::FromSpecImpl<minreq::Error> for Failure {
    open spec fn obeys_from_spec() -> bool {
        true
    }

    open spec fn from_spec(err: minreq::Error) -> Failure {
        Failure::ClientError(err)
    }
}

/// A result with its two sides replaced by their views.
pub open spec fn viewed<T: View>(result: Result<T, Failure>) -> Result<T::V, FailureModel> {
    match result {
        Ok(value) => Ok(value@),
        Err(err) => Err(err@),
    }
}

/// A result with its failure replaced by the failure's view.
pub open spec fn failing<T>(result: Result<T, Failure>) -> Result<T, FailureModel> {
    match result {
        Ok(value) => Ok(value),
        Err(err) => Err(err@),
    }
}

impl Failure {
    /// An input error carrying `message`.
    pub fn input(message: &str) -> (err: Failure)
        ensures
            err@ == FailureModel::InputError(message@),
    {
        Failure::InputError(message.to_owned())
    }

    /// The text shown for this failure: the message of an input error, or
    /// what the transport's error displays as.
    pub fn to_string(&self) -> (text: String)
        ensures
            match *self {
                Failure::InputError(message) => text@ == message@,
                Failure::ClientError(err) => vstd::string::to_string_from_display_ensures::<
                    minreq::Error,
                >(&err, text),
            },
    {
        match self {
            Failure::InputError(message) => message.clone(),
            Failure::ClientError(err) => err.to_string(),
        }
    }

    /// The message of an input error; `None` for a transport failure.
    pub fn message(&self) -> (text: Option<&str>)
        ensures
            match self@ {
                FailureModel::InputError(message) => text matches Some(t) && t@ == message,
                FailureModel::ClientError(_) => text is None,
            },
    {
        match self {
            Failure::InputError(message) => Some(message.as_str()),
            Failure::ClientError(_) => None,
        }
    }
}

} // verus!
