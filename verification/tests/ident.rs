use appbase_backend::error::BackendError;
use appbase_backend::ident::PostId;

#[test]
fn parse_reads_hyphenated_text() {
    let id = PostId::parse("550e8400-e29b-41d4-a716-446655440000").unwrap();
    assert_eq!(id.value, 0x550e8400e29b41d4a716446655440000u128);
}

#[test]
fn parse_reads_other_forms_of_the_same_identifier() {
    let want = PostId { value: 0x550e8400e29b41d4a716446655440000u128 };
    assert_eq!(PostId::parse("550E8400-E29B-41D4-A716-446655440000"), Ok(want));
    assert_eq!(PostId::parse("550e8400e29b41d4a716446655440000"), Ok(want));
    assert_eq!(PostId::parse("{550e8400-e29b-41d4-a716-446655440000}"), Ok(want));
    assert_eq!(PostId::parse("urn:uuid:550e8400-e29b-41d4-a716-446655440000"), Ok(want));
}

#[test]
fn parse_refuses_malformed_text() {
    assert_eq!(PostId::parse(""), Err(BackendError::InvalidInput));
    assert_eq!(PostId::parse("not-an-id"), Err(BackendError::InvalidInput));
    assert_eq!(PostId::parse("550e8400-e29b-41d4-a716-44665544000"), Err(BackendError::InvalidInput));
    assert_eq!(PostId::parse("550e8400-e29b-41d4-a716-44665544000g"), Err(BackendError::InvalidInput));
}

#[test]
fn text_is_lower_case_and_hyphenated() {
    let id = PostId { value: 0xA1A2A3A4B1B2C1C2D1D2D3D4D5D6D7D8u128 };
    assert_eq!(id.to_text(), "a1a2a3a4-b1b2-c1c2-d1d2-d3d4d5d6d7d8");
    assert_eq!(PostId { value: 0 }.to_text(), "00000000-0000-0000-0000-000000000000");
    assert_eq!(PostId { value: 1 }.to_text(), "00000000-0000-0000-0000-000000000001");
}

#[test]
fn text_reads_back() {
    for value in [0u128, 1, 0xffff_ffff_ffff_ffff_ffff_ffff_ffff_ffff, 0x0123456789abcdef0123456789abcdef] {
        let id = PostId { value };
        assert_eq!(PostId::parse(&id.to_text()), Ok(id));
    }
}

#[test]
fn generated_identifiers_are_random_version_four() {
    let a = PostId::generate();
    let b = PostId::generate();
    assert_ne!(a, b);
    for id in [a, b] {
        assert_eq!((id.value >> 76) & 0xf, 4);
        assert_eq!((id.value >> 62) & 0x3, 2);
        assert_eq!(&id.to_text()[14..15], "4");
    }
}

#[test]
fn errors_describe_themselves_without_store_names() {
    assert_eq!(BackendError::NotFound.describe(), "not found");
    assert_eq!(BackendError::InvalidInput.describe(), "invalid input");
    assert_eq!(BackendError::Forbidden.describe(), "forbidden");
    assert_eq!(BackendError::InvalidCredentials.describe(), "invalid credentials");
    assert_eq!(BackendError::StoreError.describe(), "store error");
}
