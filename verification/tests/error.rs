use feed_sync::error::SyncError;

#[test]
fn every_error_has_a_sentence() {
    assert_eq!(
        SyncError::Transport("timed out".to_string()).message(),
        "could not fetch the feed: timed out"
    );
    assert_eq!(SyncError::Format.message(), "the response is not a feed document");
    assert_eq!(SyncError::DataShape.message(), "the feed has no address");
}

#[test]
fn an_error_without_account_still_has_a_sentence() {
    assert_eq!(SyncError::Transport(String::new()).message(), "could not fetch the feed: ");
}
