use forum_program::errors::ForumError;
use forum_program::state::ForumState;

fn authority_key() -> [u8; 32] {
    [7u8; 32]
}

#[test]
fn test_init_fields() {
    let s = ForumState::init(authority_key(), 5, 1_000);
    assert_eq!(s.authority, authority_key());
    assert_eq!(s.merkle_root, [0u8; 32]);
    assert_eq!(s.total_content_items, 0);
    assert_eq!(s.last_updated, 1_000);
    assert_eq!(s.bump, 5);
}

#[test]
fn test_zero_root_guard() {
    let s = ForumState::init(authority_key(), 5, 1_000);
    let r = s.verify_content(vec![1, 2, 3], vec![], 0, 1_001);
    assert_eq!(r, Err(ForumError::EmptyMerkleRoot));
}

#[test]
fn test_update_by_authority() {
    let mut s = ForumState::init(authority_key(), 5, 1_000);
    let new_root = [9u8; 32];
    let ev = s
        .update_merkle_root(authority_key(), new_root, 4, 1_500)
        .expect("authority update must be accepted");
    assert_eq!(s.merkle_root, new_root);
    assert_eq!(s.total_content_items, 4);
    assert_eq!(s.last_updated, 1_500);
    assert_eq!(ev.new_root, new_root);
    assert_eq!(ev.content_count, 4);
    assert_eq!(ev.timestamp, 1_500);
    assert_eq!(ev.authority, authority_key());
}

#[test]
fn test_update_unauthorized_rejected() {
    let mut s = ForumState::init(authority_key(), 5, 1_000);
    let before = s;
    let r = s.update_merkle_root([8u8; 32], [9u8; 32], 4, 1_500);
    assert_eq!(r, Err(ForumError::Unauthorized));
    assert_eq!(s, before);
}

#[test]
fn test_update_count_regression_rejected() {
    let mut s = ForumState::init(authority_key(), 5, 1_000);
    s.update_merkle_root(authority_key(), [9u8; 32], 3, 1_500)
        .expect("first update must be accepted");
    let before = s;
    let r = s.update_merkle_root(authority_key(), [10u8; 32], 2, 1_600);
    assert_eq!(r, Err(ForumError::InvalidContentCount));
    assert_eq!(s, before);
}

#[test]
fn test_update_equal_count_allowed() {
    let mut s = ForumState::init(authority_key(), 5, 1_000);
    s.update_merkle_root(authority_key(), [9u8; 32], 3, 1_500)
        .expect("first update must be accepted");
    let r = s.update_merkle_root(authority_key(), [10u8; 32], 3, 1_600);
    assert!(r.is_ok());
    assert_eq!(s.merkle_root, [10u8; 32]);
    assert_eq!(s.total_content_items, 3);
}

#[test]
fn test_delete_by_authority() {
    let s = ForumState::init(authority_key(), 5, 1_000);
    assert_eq!(s.delete_forum(authority_key()), Ok(()));
}

#[test]
fn test_delete_unauthorized_rejected() {
    let s = ForumState::init(authority_key(), 5, 1_000);
    assert_eq!(s.delete_forum([8u8; 32]), Err(ForumError::Unauthorized));
}
