use workout_core::id::Id;

#[test]
fn test_new_creates_valid_uuid() {
    let id = Id::new();
    // A hyphenated UUID string is 36 characters.
    assert_eq!(id.as_str().len(), 36);
    // And it parses as a valid UUID.
    assert!(uuid::Uuid::parse_str(id.as_str()).is_ok());
}

#[test]
fn test_from_string_valid() {
    let uuid_str = "550e8400-e29b-41d4-a716-446655440000";
    let id = Id::from_string(uuid_str.to_string());
    assert!(id.is_ok());
    assert_eq!(id.unwrap().as_str(), uuid_str);
}

#[test]
fn test_from_string_invalid() {
    let invalid = Id::from_string("not-a-uuid".to_string());
    assert!(invalid.is_err());
    assert!(invalid.unwrap_err().contains("Invalid UUID"));
}

#[test]
fn test_default() {
    let id1 = Id::default();
    let id2 = Id::default();

    // Each default is a valid UUID.
    assert!(uuid::Uuid::parse_str(id1.as_str()).is_ok());
    assert!(uuid::Uuid::parse_str(id2.as_str()).is_ok());

    // And each is fresh.
    assert_ne!(id1, id2);
}

#[test]
fn test_display() {
    let id = Id::from_string("550e8400-e29b-41d4-a716-446655440000".to_string()).unwrap();
    assert_eq!(id.to_string(), "550e8400-e29b-41d4-a716-446655440000");
}

#[test]
fn test_equality() {
    let uuid_str = "550e8400-e29b-41d4-a716-446655440000";
    let id1 = Id::from_string(uuid_str.to_string()).unwrap();
    let id2 = Id::from_string(uuid_str.to_string()).unwrap();
    let id3 = Id::new();

    assert_eq!(id1, id2);
    assert_ne!(id1, id3);
}

#[test]
fn test_clone() {
    let id1 = Id::new();
    let id2 = id1.clone();
    assert_eq!(id1, id2);
}

#[test]
fn test_into_string() {
    let uuid_str = "550e8400-e29b-41d4-a716-446655440000";
    let id = Id::from_string(uuid_str.to_string()).unwrap();
    assert_eq!(id.into_string(), uuid_str);
}
