use terminal_backend::error::ErrorKind;
use terminal_backend::response::respond;
use terminal_backend::terminal::{
    cancel_action_path, configured_location, connection_token_issued, find_location,
    reader_action_cancelled, resolve_reader_location,
};

fn ids(v: &[&str]) -> Vec<String> {
    v.iter().map(|s| s.to_string()).collect()
}

#[test]
fn unset_location_envelope() {
    let env = respond(configured_location(None));
    assert!(env.data.is_none());
    assert_eq!(env.error.unwrap(), "Failed to load location ID");
    assert_eq!(env.status, 500);
}

#[test]
fn configured_location_is_relayed() {
    let env = respond(configured_location(Some("tml_1".to_string())));
    assert_eq!(env.data.unwrap(), "tml_1");
    assert!(env.error.is_none());
    assert_eq!(env.status, 200);
}

#[test]
fn location_found_in_listing() {
    let id = "tml_b".to_string();
    let r = resolve_reader_location(&id, Ok(ids(&["tml_a", "tml_b", "tml_c"])));
    assert_eq!(r.unwrap(), "tml_b");
}

#[test]
fn location_first_match_wins() {
    let id = "tml_b".to_string();
    assert_eq!(find_location(&id, &ids(&["tml_a", "tml_b", "tml_b"])), Some(1));
    assert_eq!(find_location(&id, &ids(&["tml_a"])), None);
    assert_eq!(find_location(&id, &Vec::new()), None);
}

#[test]
fn location_missing_is_not_found() {
    let id = "tml_z".to_string();
    let r = resolve_reader_location(&id, Ok(ids(&["tml_a", "tml_b"])));
    let e = r.clone().unwrap_err();
    assert_eq!(e.kind, ErrorKind::NotFound);
    assert_eq!(e.message, "No location found with ID tml_z");
    let env = respond(r);
    assert_eq!(env.status, 404);
    assert!(env.data.is_none());
}

#[test]
fn location_resolution_is_repeatable() {
    let id = "tml_a".to_string();
    let listing = ids(&["tml_a"]);
    let a = resolve_reader_location(&id, Ok(listing.clone()));
    let b = resolve_reader_location(&id, Ok(listing));
    assert_eq!(a, b);
    let missing = "tml_q".to_string();
    let c = resolve_reader_location(&missing, Ok(ids(&["tml_a"])));
    let d = resolve_reader_location(&missing, Ok(ids(&["tml_a"])));
    assert_eq!(c, d);
}

#[test]
fn location_listing_failure_is_gateway_error() {
    let id = "tml_a".to_string();
    let e = resolve_reader_location(&id, Err("timeout".to_string())).unwrap_err();
    assert_eq!(e.kind, ErrorKind::Gateway);
    assert_eq!(e.message, "Failed to list terminal locations: timeout");
    assert_eq!(e.status_code(), 500);
}

#[test]
fn connection_token_secret_relayed() {
    assert_eq!(connection_token_issued(Ok("pst_test_123".to_string())).unwrap(), "pst_test_123");
    let e = connection_token_issued(Err("bad key".to_string())).unwrap_err();
    assert_eq!(e.kind, ErrorKind::Gateway);
    assert_eq!(e.message, "Failed to create connection token: bad key");
}

#[test]
fn empty_reader_id_is_invalid_input() {
    let e = cancel_action_path("").unwrap_err();
    assert_eq!(e.kind, ErrorKind::InvalidInput);
    assert_eq!(e.message, "Reader id must not be empty");
    assert_eq!(respond::<String>(Err(e)).status, 400);
}

#[test]
fn cancel_path_names_reader() {
    assert_eq!(
        cancel_action_path("tmr_42").unwrap(),
        "/terminal/readers/tmr_42/cancel_action"
    );
}

#[test]
fn cancel_outcome_relayed() {
    assert_eq!(reader_action_cancelled("tmr_1", Ok(7u8)).unwrap(), 7);
    let e = reader_action_cancelled::<u8>("tmr_1", Err("no action in progress".to_string()))
        .unwrap_err();
    assert_eq!(e.kind, ErrorKind::Gateway);
    assert_eq!(
        e.message,
        "Failed to cancel action for reader `tmr_1`: no action in progress"
    );
}
