use vstd::prelude::*;

use crate::error::{fails_with, ErrorKind, ServiceError};

verus! {

pub const TOKEN_FAILED: &'static str = "Failed to create connection token: ";

pub const LOCATION_UNSET: &'static str = "Failed to load location ID";

pub const LOCATIONS_FAILED: &'static str = "Failed to list terminal locations: ";

pub const LOCATION_MISSING: &'static str = "No location found with ID ";

pub const READER_ID_EMPTY: &'static str = "Reader id must not be empty";

pub const READERS_PATH: &'static str = "/terminal/readers/";

pub const CANCEL_ACTION_SUFFIX: &'static str = "/cancel_action";

pub const CANCEL_FAILED: &'static str = "Failed to cancel action for reader `";

pub const CANCEL_CAUSE: &'static str = "`: ";

/// Relays the secret of a freshly issued connection token unchanged, or a
/// gateway failure that names the cause.
pub fn connection_token_issued(answer: Result<String, String>) -> (r: Result<String, ServiceError>)
    ensures
        match answer {
            Ok(secret) => r == Ok::<String, ServiceError>(secret),
            Err(cause) => fails_with(r, ErrorKind::Gateway, TOKEN_FAILED@ + cause@),
        },
{
    match answer {
        Ok(secret) => Ok(secret),
        Err(cause) => Err(ServiceError::with_detail(ErrorKind::Gateway, TOKEN_FAILED, cause.as_str())),
    }
}

/// The configured location identifier, or a configuration failure when it is unset.
pub fn configured_location(config: Option<String>) -> (r: Result<String, ServiceError>)
    ensures
        match config {
            Some(id) => r == Ok::<String, ServiceError>(id),
            None => fails_with(r, ErrorKind::Configuration, LOCATION_UNSET@),
        },
{
    match config {
        Some(id) => Ok(id),
        None => Err(ServiceError::new(ErrorKind::Configuration, String::from_str(LOCATION_UNSET))),
    }
}

/// Some identifier in `ids` equals `id`.
pub open spec fn listed(id: Seq<char>, ids: Seq<String>) -> bool {
    exists|j: int| 0 <= j < ids.len() && #[trigger] ids[j]@ == id
}

/// The position of the first identifier in `ids` equal to `id`.
pub fn find_location(id: &String, ids: &Vec<String>) -> (r: Option<usize>)
    ensures
        match r {
            Some(i) => i < ids@.len() && ids@[i as int]@ == id@ && forall|j: int|
                0 <= j < i ==> #[trigger] ids@[j]@ != id@,
            None => !listed(id@, ids@),
        },
{
    let mut i: usize = 0;
    while i < ids.len()
        invariant
            i <= ids@.len(),
            forall|j: int| 0 <= j < i ==> #[trigger] ids@[j]@ != id@,
        decreases ids@.len() - i,
    {
        if ids[i] == *id {
            return Some(i);
        }
        i = i + 1;
    }
    None
}

/// What resolving the reader location `id` against the gateway's location
/// listing `answer` gives: `id` itself when the listing holds it, a not-found
/// failure when it does not, a gateway failure when the listing failed.
pub open spec fn resolution(
    r: Result<String, ServiceError>,
    id: Seq<char>,
    answer: Result<Vec<String>, String>,
) -> bool {
    match answer {
        Err(cause) => fails_with(r, ErrorKind::Gateway, LOCATIONS_FAILED@ + cause@),
        Ok(ids) => if listed(id, ids@) {
            r matches Ok(found) && found@ == id
        } else {
            fails_with(r, ErrorKind::NotFound, LOCATION_MISSING@ + id)
        },
    }
}

/// Scans the gateway's location listing for the configured location `id`;
/// the first match in listing order is the one returned.
pub fn resolve_reader_location(id: &String, answer: Result<Vec<String>, String>) -> (r: Result<
    String,
    ServiceError,
>)
    ensures
        resolution(r, id@, answer),
{
    match answer {
        Err(cause) => Err(
            ServiceError::with_detail(ErrorKind::Gateway, LOCATIONS_FAILED, cause.as_str()),
        ),
        Ok(ids) => match find_location(id, &ids) {
            Some(i) => Ok(ids[i].clone()),
            None => Err(ServiceError::with_detail(ErrorKind::NotFound, LOCATION_MISSING, id.as_str())),
        },
    }
}

/// Resolving the same location against an unchanged listing gives the same
/// outcome each time: the same identifier, or the same failure.
pub proof fn lemma_resolution_repeatable(
    id: Seq<char>,
    answer: Result<Vec<String>, String>,
    first: Result<String, ServiceError>,
    second: Result<String, ServiceError>,
)
    requires
        resolution(first, id, answer),
        resolution(second, id, answer),
    ensures
        first is Ok <==> second is Ok,
        first matches Ok(a) ==> second matches Ok(b) && a@ == b@,
        first matches Err(a) ==> second matches Err(b) && a.kind == b.kind && a.message@
            == b.message@,
{
}

/// The gateway path that cancels the action in progress on reader `reader_id`;
/// an empty identifier fails with `InvalidInput`, so no call can be made.
pub fn cancel_action_path(reader_id: &str) -> (r: Result<String, ServiceError>)
    ensures
        r is Err <==> reader_id@.len() == 0,
        reader_id@.len() == 0 ==> fails_with(r, ErrorKind::InvalidInput, READER_ID_EMPTY@),
        r matches Ok(path) ==> path@ == READERS_PATH@ + reader_id@ + CANCEL_ACTION_SUFFIX@,
{
    if reader_id.is_empty() {
        return Err(ServiceError::new(ErrorKind::InvalidInput, String::from_str(READER_ID_EMPTY)));
    }
    let mut path = String::from_str(READERS_PATH);
    path.append(reader_id);
    path.append(CANCEL_ACTION_SUFFIX);
    Ok(path)
}

/// Relays the reader's updated state after a cancellation unchanged, or a
/// gateway failure that names the reader and the cause.
pub fn reader_action_cancelled<T>(reader_id: &str, answer: Result<T, String>) -> (r: Result<
    T,
    ServiceError,
>)
    ensures
        match answer {
            Ok(state) => r == Ok::<T, ServiceError>(state),
            Err(cause) => fails_with(
                r,
                ErrorKind::Gateway,
                CANCEL_FAILED@ + reader_id@ + CANCEL_CAUSE@ + cause@,
            ),
        },
{
    match answer {
        Ok(state) => Ok(state),
        Err(cause) => {
            let mut message = String::from_str(CANCEL_FAILED);
            message.append(reader_id);
            message.append(CANCEL_CAUSE);
            message.append(cause.as_str());
            Err(ServiceError::new(ErrorKind::Gateway, message))
        },
    }
}

} // verus!
