use gp_client::credentials::{account, availability, deletion_result, is_available, KeyringError};

#[test]
fn an_entry_is_addressed_by_portal_and_user() {
    assert_eq!(account("vpn.example.com", "alice"), "vpn.example.com\nalice");
}

#[test]
fn a_missing_entry_is_as_good_as_deleted() {
    assert_eq!(deletion_result(Err(KeyringError::NoEntry("none".to_string()))), Ok(()));
    assert_eq!(deletion_result(Err(KeyringError::Other("boom".to_string()))), Err("boom".to_string()));
}

#[test]
fn an_unreachable_store_is_unavailable() {
    assert!(availability(Ok(())));
    assert!(availability(Err(KeyringError::NoEntry("none".to_string()))));
    assert!(!availability(Err(KeyringError::NoStorageAccess("locked".to_string()))));
    assert!(!availability(Err(KeyringError::PlatformFailure("broken".to_string()))));
    assert!(availability(Err(KeyringError::Other("odd".to_string()))));
}

#[test]
fn the_store_is_probed_once_and_the_answer_kept() {
    let mut known = Some(false);
    assert!(!is_available(&mut known));
    assert_eq!(known, Some(false));
    let mut known = Some(true);
    assert!(is_available(&mut known));
    assert_eq!(known, Some(true));
}
