use smbench::output::target_directory_from_metadata;

#[test]
fn target_directory_is_read_from_the_metadata_dump() {
    let dump = br#"{"packages":[],"target_directory":"/home/user/proj/target","version":1}"#.to_vec();
    assert_eq!(
        target_directory_from_metadata(&dump),
        Some(b"/home/user/proj/target".to_vec())
    );
}

#[test]
fn last_target_directory_key_wins() {
    let dump = br#"{"target_directory":"/first","x":{"target_directory":"/second"}}"#.to_vec();
    assert_eq!(
        target_directory_from_metadata(&dump),
        Some(b"/second".to_vec())
    );
}

#[test]
fn malformed_metadata_yields_nothing() {
    // No key at all.
    assert_eq!(target_directory_from_metadata(&b"{}".to_vec()), None);
    // Key present but the closing quote is missing.
    assert_eq!(
        target_directory_from_metadata(&br#"{"target_directory":"/unterminated"#.to_vec()),
        None
    );
    // The dump ends right after the key.
    assert_eq!(
        target_directory_from_metadata(&br#"{"target_directory":"#.to_vec()),
        None
    );
    assert_eq!(target_directory_from_metadata(&Vec::new()), None);
}
