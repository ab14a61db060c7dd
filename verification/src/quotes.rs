//! Quote sources: requests, failures, and the shape of a quote answer.

use vstd::prelude::*;
use vstd::string::StringExecFns;
use crate::tokens::ChainAddress;

verus! {

/// Which of the two functionally identical price sources a request addresses.
#[derive(Clone, Copy, PartialEq, Eq, Structural, Debug)]
pub enum SourceId {
    A,
    B,
}

/// The mathematical content of a `QuoteFailure`.
#[verifier::ext_equal]
pub enum QuoteFailureModel {
    Upstream { message: Seq<char> },
    MalformedResponse,
}

/// A failed quote call. No retry happens inside the quote source.
#[derive(Debug)]
pub enum QuoteFailure {
    /// The upstream call failed (network error, revert); carries its message.
    Upstream { message: String },
    /// The source answered with fewer than two amounts, so there is no
    /// meaningful output value.
    MalformedResponse,
}

impl View for QuoteFailure {
    type V = QuoteFailureModel;

    open spec fn view(&self) -> QuoteFailureModel {
        match self {
            QuoteFailure::Upstream { message } => QuoteFailureModel::Upstream {
                message: message@,
            },
            QuoteFailure::MalformedResponse => QuoteFailureModel::MalformedResponse,
        }
    }
}

impl Clone for QuoteFailure {
    fn clone(&self) -> (r: QuoteFailure)
        ensures
            r@ == self@,
    {
        match self {
            QuoteFailure::Upstream { message } => QuoteFailure::Upstream {
                message: message.clone(),
            },
            QuoteFailure::MalformedResponse => QuoteFailure::MalformedResponse,
        }
    }
}

impl QuoteFailure {
    /// A human-readable description of the failure.
    pub fn message_text(&self) -> (r: String)
        ensures
            self@ matches QuoteFailureModel::Upstream { message } ==> r@ == message,
            self@ is MalformedResponse ==> r@ == "malformed quote response"@,
    {
        match self {
            QuoteFailure::Upstream { message } => message.clone(),
            QuoteFailure::MalformedResponse => String::from_str("malformed quote response"),
        }
    }
}

/// A read-only price query: sell `amount_in` of the first path entry, receive
/// the last path entry, on the named source. The path order is the trade
/// direction.
#[derive(Debug)]
pub struct QuoteRequest {
    pub source: SourceId,
    pub amount_in: u128,
    pub path: Vec<ChainAddress>,
}

/// Extracts the quote output from the amount sequence a source returned: the
/// final element. A response with fewer than two amounts is malformed, since
/// a quote answers for a path of at least two assets.
pub fn extract_amount_out(amounts: &Vec<u128>) -> (r: Result<u128, QuoteFailure>)
    ensures
        amounts@.len() >= 2 ==> (r matches Ok(a) && a == amounts@.last()),
        amounts@.len() < 2 ==> (r matches Err(f) && f is MalformedResponse),
{
    if amounts.len() >= 2 {
        Ok(amounts[amounts.len() - 1])
    } else {
        Err(QuoteFailure::MalformedResponse)
    }
}

} // verus!
