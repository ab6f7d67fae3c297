use fedgate::codec::{decode_one, decode_one_or_many, decode_skip_error, deserialize_one,
    deserialize_one_or_many, deserialize_skip_error, CodecError, OneOrMany};

#[test]
fn bare_value_and_singleton_array_decode_alike() {
    let bare = decode_one_or_many("\"a\"").unwrap();
    let wrapped = decode_one_or_many("[\"a\"]").unwrap();
    assert_eq!(bare, vec![String::from("\"a\"")]);
    assert_eq!(bare, wrapped);
    assert_eq!(decode_one("\"a\"").unwrap(), decode_one("[\"a\"]").unwrap());
}

#[test]
fn arrays_keep_their_elements_in_order() {
    let l = decode_one_or_many("[1, 2, 3]").unwrap();
    assert_eq!(l, vec!["1", "2", "3"]);
    let empty = decode_one_or_many("[]").unwrap();
    assert_eq!(empty, Vec::<String>::new());
}

#[test]
fn invalid_payload_is_reported() {
    assert_eq!(
        decode_one_or_many("not json").unwrap_err(),
        CodecError::InvalidPayload
    );
    assert_eq!(decode_one("{oops").unwrap_err(), CodecError::InvalidPayload);
}

#[test]
fn exactly_one_refuses_other_cardinalities() {
    assert_eq!(decode_one("[]").unwrap_err(), CodecError::NotExactlyOne);
    assert_eq!(decode_one("[1, 2]").unwrap_err(), CodecError::NotExactlyOne);
    assert_eq!(decode_one("[true]").unwrap(), "true");
    assert_eq!(decode_one("42").unwrap(), "42");
}

#[test]
fn skip_error_substitutes_the_default() {
    assert_eq!(
        decode_skip_error("{bad", String::from("fallback")),
        "fallback"
    );
    assert_eq!(decode_skip_error("\"x\"", String::from("fallback")), "\"x\"");
}

#[test]
fn skip_error_leaves_sibling_fields_alone() {
    // One malformed optional field of a payload substitutes its default;
    // the sibling field decodes untouched.
    let good_field = decode_skip_error("\"fine\"", String::from("d1"));
    let bad_field = decode_skip_error("][", String::from("d2"));
    assert_eq!(good_field, "\"fine\"");
    assert_eq!(bad_field, "d2");
}

#[test]
fn classified_values_normalize() {
    let one: OneOrMany<u32> = OneOrMany::One(7);
    assert_eq!(deserialize_one_or_many(one), vec![7]);
    let many: OneOrMany<u32> = OneOrMany::Many(vec![7, 8]);
    assert_eq!(deserialize_one_or_many(many), vec![7, 8]);

    assert_eq!(deserialize_one(OneOrMany::One(7u32)).unwrap(), 7);
    assert_eq!(deserialize_one(OneOrMany::Many(vec![7u32])).unwrap(), 7);
    assert_eq!(
        deserialize_one(OneOrMany::Many(Vec::<u32>::new())).unwrap_err(),
        CodecError::NotExactlyOne
    );

    assert_eq!(deserialize_skip_error(Ok(5u32), 0), 5);
    assert_eq!(deserialize_skip_error(Err(CodecError::NotExactlyOne), 0u32), 0);
}
