use directive_agent::fingerprint::{fingerprint, marker_filename, marker_path, record_marker};

#[test]
fn fingerprint_is_deterministic() {
    let a = fingerprint("{\"url\":\"a.test\"}\n", "myapp");
    let b = fingerprint("{\"url\":\"a.test\"}\n", "myapp");
    assert_eq!(a, b);
    assert_eq!(
        marker_filename("{\"url\":\"a.test\"}\n", "myapp"),
        marker_filename("{\"url\":\"a.test\"}\n", "myapp")
    );
}

#[test]
fn fingerprint_matches_known_digest() {
    // SHA-256 over the manifest text, a separator, and the identity.
    assert_eq!(
        fingerprint("a", "b"),
        "648fa9b31bc7ff7eb914e7a7180f07e0df0f8467839b1af8902da1d0bead03a2"
    );
    assert_eq!(
        fingerprint("{\"url\":\"a.test\"}\n", "myapp"),
        "90a7b39ed95ac93c43c6eb060f38b2be12f84b24f6b6d8a47d66f86c03b72c8a"
    );
}

#[test]
fn marker_token_is_short_fingerprint_prefix() {
    let full = fingerprint("a", "b");
    let token = marker_filename("a", "b");
    assert_eq!(token.len(), 8);
    assert_eq!(&token[..], &full[..8]);
    assert_eq!(token, "648fa9b3");
}

#[test]
fn marker_path_lies_in_scratch_directory() {
    assert_eq!(marker_path("a", "b"), "/tmp/648fa9b3");
}

#[test]
fn fingerprint_is_always_a_64_character_digest() {
    assert_eq!(fingerprint("", "").len(), 64);
    assert_eq!(marker_filename("", "").len(), 8);
}

#[test]
fn comment_only_change_yields_different_marker() {
    // Any byte of the manifest counts, a comment-only line included.
    let one = marker_filename("# note one\n{\"port\":8080}\n", "myapp");
    let two = marker_filename("# note two\n{\"port\":8080}\n", "myapp");
    assert_ne!(one, two);
}

#[test]
fn zero_byte_marker_copy_is_an_integrity_error() {
    let mut marker: Option<String> = None;
    let r = record_marker(&mut marker, "content", 0);
    assert!(matches!(
        r,
        Err(directive_agent::errors::AgentError::Integrity(_))
    ));
    // The empty marker must not gate a future run as done.
    assert!(marker.is_none());
}

#[test]
fn successful_marker_copy_records_the_raw_text() {
    let mut marker: Option<String> = None;
    let r = record_marker(&mut marker, "content", 7);
    assert!(r.is_ok());
    assert_eq!(marker.as_deref(), Some("content"));
}
