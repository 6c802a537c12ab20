use vstd::prelude::*;

use crate::error::{fails_with, ErrorKind, ServiceError};

verus! {

pub const CREDENTIAL_MISSING: &'static str = "Failed to load stripe secret key";

pub const BANNER: &'static str = "Env loaded! Key: ";

pub const ELLIPSIS: &'static str = "...";

/// How many leading characters of the credential a masked form shows.
pub const SHOWN_HEAD: usize = 7;

/// How many trailing characters of the credential a masked form shows.
pub const SHOWN_TAIL: usize = 4;

/// The gateway credential the handle is built from. An absent or empty
/// credential is a configuration failure; no other check is made here, the
/// gateway judges it on the first call.
pub fn acquire_credential(credential: Option<String>) -> (r: Result<String, ServiceError>)
    ensures
        match credential {
            Some(key) => if key@.len() == 0 {
                fails_with(r, ErrorKind::Configuration, CREDENTIAL_MISSING@)
            } else {
                r == Ok::<String, ServiceError>(key)
            },
            None => fails_with(r, ErrorKind::Configuration, CREDENTIAL_MISSING@),
        },
{
    match credential {
        Some(key) => {
            if key.as_str().is_empty() {
                Err(ServiceError::new(ErrorKind::Configuration, String::from_str(CREDENTIAL_MISSING)))
            } else {
                Ok(key)
            }
        },
        None => Err(ServiceError::new(ErrorKind::Configuration, String::from_str(CREDENTIAL_MISSING))),
    }
}

pub open spec fn shown(n: nat, limit: usize) -> int {
    if n <= limit {
        n as int
    } else {
        limit as int
    }
}

/// `key` with all but its first seven and last four characters hidden behind
/// an ellipsis; a shorter key shows what it has at each end.
pub open spec fn masked(key: Seq<char>) -> Seq<char> {
    key.take(shown(key.len(), SHOWN_HEAD)) + ELLIPSIS@ + key.skip(
        key.len() - shown(key.len(), SHOWN_TAIL),
    )
}

pub fn mask_credential(key: &str) -> (r: String)
    ensures
        r@ == masked(key@),
{
    let n = key.unicode_len();
    let head = if n <= SHOWN_HEAD {
        n
    } else {
        SHOWN_HEAD
    };
    let tail = if n <= SHOWN_TAIL {
        n
    } else {
        SHOWN_TAIL
    };
    let mut r = String::from_str(key.substring_char(0, head));
    r.append(ELLIPSIS);
    r.append(key.substring_char(n - tail, n));
    proof {
        assert(key@.take(head as int) =~= key@.subrange(0, head as int));
        assert(key@.skip(n - tail) =~= key@.subrange(n - tail, n as int));
    }
    r
}

/// The confirmation that a credential is loaded, showing it masked.
pub fn credential_banner(credential: Option<String>) -> (r: Result<String, ServiceError>)
    ensures
        match credential {
            Some(key) => if key@.len() == 0 {
                fails_with(r, ErrorKind::Configuration, CREDENTIAL_MISSING@)
            } else {
                r matches Ok(text) && text@ == BANNER@ + masked(key@)
            },
            None => fails_with(r, ErrorKind::Configuration, CREDENTIAL_MISSING@),
        },
{
    match acquire_credential(credential) {
        Ok(key) => {
            let mut text = String::from_str(BANNER);
            let shown = mask_credential(key.as_str());
            text.append(shown.as_str());
            Ok(text)
        },
        Err(e) => Err(e),
    }
}

} // verus!
