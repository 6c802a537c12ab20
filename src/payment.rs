use vstd::prelude::*;

use crate::error::{fails_with, ErrorKind, ServiceError};

verus! {

#[verifier::external_type_specification]
#[verifier::external_body]
pub struct ExCurrency(stripe::Currency);

/// Whether the gateway's currency parser accepts `code`.
pub uninterp spec fn gateway_currency(code: Seq<char>) -> bool;

/// Relies on `<stripe::Currency as FromStr>::from_str`: whether it accepts a
/// string depends on that string alone (it matches it against a fixed table of
/// lower-case codes).
#[verifier::external_body]
fn parse_currency(code: &str) -> (r: Option<stripe::Currency>)
    ensures
        r is Some <==> gateway_currency(code@),
{
    code.parse::<stripe::Currency>().ok()
}

/// How the gateway is told to capture an authorization.
#[derive(Clone, Copy, Debug, PartialEq, Eq, Structural)]
pub enum CaptureMethod {
    /// Funds are captured as soon as the payment is authorized.
    Automatic,
}

/// The payment-method type of every authorization: a card read in person.
pub const IN_PERSON_CARD: &'static str = "card_present";

pub const INVALID_CURRENCY: &'static str = "Invalid currency";

pub const CREATE_FAILED: &'static str = "Failed to create payment intent: ";

pub const LIST_FAILED: &'static str = "Failed to list payment intents: ";

/// How many authorizations the recent-activity listing asks for and returns at most.
pub const RECENT_LIMIT: usize = 10;

/// The creation request sent to the gateway for one authorization.
pub struct AuthorizationRequest {
    pub amount: i64,
    pub currency: stripe::Currency,
    /// The currency code as the caller wrote it, which the gateway accepted.
    pub currency_code: String,
    pub payment_method_type: String,
    pub capture_method: CaptureMethod,
}

/// An authorization as the gateway reports it, relayed unchanged.
#[derive(Clone, Debug, PartialEq, Eq)]
pub struct AuthorizationRecord {
    pub id: String,
    pub amount: i64,
    pub currency: String,
    pub capture_method: String,
    pub status: String,
}

/// `q` asks the gateway for an in-person card authorization of `amount` in
/// `currency`, captured automatically.
pub open spec fn request_for(q: AuthorizationRequest, amount: i64, currency: Seq<char>) -> bool {
    &&& q.amount == amount
    &&& q.currency_code@ == currency
    &&& q.payment_method_type@ == IN_PERSON_CARD@
    &&& q.capture_method == CaptureMethod::Automatic
}

/// Builds the creation request from the caller's input and the gateway
/// parser's verdict on `currency`: an unparsed currency fails with
/// `InvalidInput` and no request exists to be sent.
pub fn authorization_request_from(
    amount: i64,
    currency: &str,
    parsed: Option<stripe::Currency>,
) -> (r: Result<AuthorizationRequest, ServiceError>)
    ensures
        r is Ok <==> parsed is Some,
        parsed is None ==> fails_with(r, ErrorKind::InvalidInput, INVALID_CURRENCY@),
        r matches Ok(q) ==> request_for(q, amount, currency@) && Some(q.currency) == parsed,
{
    match parsed {
        Some(c) => Ok(
            AuthorizationRequest {
                amount,
                currency: c,
                currency_code: String::from_str(currency),
                payment_method_type: String::from_str(IN_PERSON_CARD),
                capture_method: CaptureMethod::Automatic,
            },
        ),
        None => Err(ServiceError::new(ErrorKind::InvalidInput, String::from_str(INVALID_CURRENCY))),
    }
}

/// Checks `currency` with the gateway's parser before anything is sent, and
/// builds the creation request for `amount` in that currency.
pub fn authorization_request(amount: i64, currency: &str) -> (r: Result<
    AuthorizationRequest,
    ServiceError,
>)
    ensures
        r is Ok <==> gateway_currency(currency@),
        !gateway_currency(currency@) ==> fails_with(r, ErrorKind::InvalidInput, INVALID_CURRENCY@),
        r matches Ok(q) ==> request_for(q, amount, currency@),
{
    let parsed = parse_currency(currency);
    authorization_request_from(amount, currency, parsed)
}

/// The outcome of creating an authorization, given the gateway's answer.
pub open spec fn created_outcome(
    r: Result<AuthorizationRecord, ServiceError>,
    answer: Result<AuthorizationRecord, String>,
) -> bool {
    match answer {
        Ok(record) => r == Ok::<AuthorizationRecord, ServiceError>(record),
        Err(cause) => fails_with(r, ErrorKind::Gateway, CREATE_FAILED@ + cause@),
    }
}

/// Relays the gateway's answer to a creation request: the record unchanged,
/// or a gateway failure that names the cause.
pub fn authorization_created(answer: Result<AuthorizationRecord, String>) -> (r: Result<
    AuthorizationRecord,
    ServiceError,
>)
    ensures
        created_outcome(r, answer),
{
    match answer {
        Ok(record) => Ok(record),
        Err(cause) => Err(ServiceError::with_detail(ErrorKind::Gateway, CREATE_FAILED, cause.as_str())),
    }
}

/// For a currency the gateway accepts, the authorization handed back to the
/// caller carries the amount and currency the caller asked for, whenever the
/// gateway created it from the request built for that input: the request
/// carries both unchanged, and the gateway's record is relayed unchanged.
pub proof fn lemma_authorization_echoes_input(
    amount: i64,
    currency: Seq<char>,
    request: AuthorizationRequest,
    record: AuthorizationRecord,
    r: Result<AuthorizationRecord, ServiceError>,
)
    requires
        gateway_currency(currency),
        request_for(request, amount, currency),
        record.amount == request.amount,
        record.currency@ == request.currency_code@,
        created_outcome(r, Ok(record)),
    ensures
        r matches Ok(created) && created.amount == amount && created.currency@ == currency,
{
}

/// Relays the gateway's recent-activity page: its first `RECENT_LIMIT`
/// records in the gateway's order (newest first), or a gateway failure.
pub fn recent_authorizations<T>(answer: Result<Vec<T>, String>) -> (r: Result<Vec<T>, ServiceError>)
    ensures
        match answer {
            Ok(records) => r matches Ok(v) && v@ == records@.take(
                if records@.len() <= RECENT_LIMIT { records@.len() as int } else { RECENT_LIMIT as int },
            ),
            Err(cause) => fails_with(r, ErrorKind::Gateway, LIST_FAILED@ + cause@),
        },
        r matches Ok(v) ==> v@.len() <= RECENT_LIMIT,
{
    match answer {
        Ok(records) => {
            let mut page = records;
            page.truncate(RECENT_LIMIT);
            Ok(page)
        },
        Err(cause) => Err(ServiceError::with_detail(ErrorKind::Gateway, LIST_FAILED, cause.as_str())),
    }
}

} // verus!
