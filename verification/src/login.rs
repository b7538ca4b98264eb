//! What the identity provider's answer holds for the service.

use vstd::prelude::*;
use crate::text::opt_view;
use crate::page::{document_grid, NOTHING, Row, rows_view, RowView, select_in_document};

verus! {

/// The form field that holds the identity provider's assertion.
pub const ASSERTION: &'static str = "input[name=\"SAMLResponse\"]";

/// The form field that holds the relay state.
pub const RELAY_STATE: &'static str = "input[name=\"RelayState\"]";

/// The attribute that holds a form field's value.
pub const VALUE: &'static str = "value";

/// Why the identity provider's answer cannot be passed on.
#[derive(Debug, Clone, Copy, PartialEq, Eq, Structural)]
pub enum LoginError {
    /// A selector was not understood.
    Selector,
    /// The answer holds no assertion: the password may be wrong.
    NoAssertion,
    /// The answer holds no relay state.
    NoRelayState,
}

impl LoginError {
    /// The failure in words.
    pub fn message(&self) -> (r: &'static str)
        ensures
            r@ == self.description(),
    {
        match self {
            LoginError::Selector => "selector not understood",
            LoginError::NoAssertion => "no SAML response, incorrect password?",
            LoginError::NoRelayState => "no relay state",
        }
    }

    pub open spec fn description(&self) -> Seq<char> {
        match self {
            LoginError::Selector => "selector not understood"@,
            LoginError::NoAssertion => "no SAML response, incorrect password?"@,
            LoginError::NoRelayState => "no relay state"@,
        }
    }
}

/// The value of the first of the form fields `fields`.
pub open spec fn first_value(fields: Seq<RowView>) -> Option<Seq<char>> {
    if fields.len() == 0 {
        None
    } else {
        fields[0].own.attr
    }
}

/// The value of the first of the form fields `fields`.
pub fn first_value_of(fields: &Vec<Row>) -> (r: Option<String>)
    ensures
        opt_view(r) == first_value(rows_view(fields@)),
{
    if fields.len() == 0 {
        None
    } else {
        match &fields[0].own.attr {
            Some(v) => Some(v.clone()),
            None => None,
        }
    }
}

/// The assertion and the relay state that the answer `page` holds.
pub open spec fn handover_of(page: Seq<char>) -> Result<(Seq<char>, Seq<char>), LoginError> {
    match (
        document_grid(page, ASSERTION@, NOTHING@, NOTHING@, VALUE@),
        document_grid(page, RELAY_STATE@, NOTHING@, NOTHING@, VALUE@),
    ) {
        (Some(assertions), Some(states)) => match first_value(assertions) {
            None => Err(LoginError::NoAssertion),
            Some(assertion) => match first_value(states) {
                None => Err(LoginError::NoRelayState),
                Some(state) => Ok((assertion, state)),
            },
        },
        _ => Err(LoginError::Selector),
    }
}

/// A handover, or a failure, by its characters.
pub open spec fn handover_view(r: Result<(String, String), LoginError>) -> Result<
    (Seq<char>, Seq<char>),
    LoginError,
> {
    match r {
        Ok(pair) => Ok((pair.0@, pair.1@)),
        Err(e) => Err(e),
    }
}

/// The assertion and the relay state that the identity provider's answer
/// `page` holds, to be passed on to the service.
pub fn handover(page: &str) -> (r: Result<(String, String), LoginError>)
    ensures
        handover_view(r) == handover_of(page@),
{
    let assertions = select_in_document(page, ASSERTION, NOTHING, NOTHING, VALUE);
    let states = select_in_document(page, RELAY_STATE, NOTHING, NOTHING, VALUE);
    match (assertions, states) {
        (Some(assertions), Some(states)) => match first_value_of(&assertions) {
            None => Err(LoginError::NoAssertion),
            Some(assertion) => match first_value_of(&states) {
                None => Err(LoginError::NoRelayState),
                Some(state) => Ok((assertion, state)),
            },
        },
        _ => Err(LoginError::Selector),
    }
}

} // verus!
