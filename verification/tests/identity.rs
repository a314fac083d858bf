use cucura::identity::{
    BinaryForm, Encoding, Identifier, IdentityError, RecordId, IDENTIFIER_SUBTYPE,
};
use cucura::radix::pack;

const VALUE: u128 = 0x67e5504410b1426f9247bb680e5fe0c8;

const BYTES: [u8; 16] = [
    0x67, 0xe5, 0x50, 0x44, 0x10, 0xb1, 0x42, 0x6f, 0x92, 0x47, 0xbb, 0x68, 0x0e, 0x5f, 0xe0, 0xc8,
];

#[test]
fn decode_reads_the_grouped_form() {
    let id = Identifier::decode("67e55044-10b1-426f-9247-bb680e5fe0c8");
    assert_eq!(id, Ok(Identifier { value: VALUE }));
}

#[test]
fn decode_reads_the_bare_digits() {
    let id = Identifier::decode("67e5504410b1426f9247bb680e5fe0c8");
    assert_eq!(id, Ok(Identifier { value: VALUE }));
}

#[test]
fn decode_reads_the_braced_form() {
    let id = Identifier::decode("{67e55044-10b1-426f-9247-bb680e5fe0c8}");
    assert_eq!(id, Ok(Identifier { value: VALUE }));
}

#[test]
fn decode_reads_the_urn_form_in_either_case() {
    let lower = Identifier::decode("urn:uuid:67e55044-10b1-426f-9247-bb680e5fe0c8");
    let upper = Identifier::decode("URN:UUID:67e55044-10b1-426f-9247-bb680e5fe0c8");
    assert_eq!(lower, Ok(Identifier { value: VALUE }));
    assert_eq!(upper, Ok(Identifier { value: VALUE }));
}

#[test]
fn decode_reads_upper_case_digits() {
    let id = Identifier::decode("67E55044-10B1-426F-9247-BB680E5FE0C8");
    assert_eq!(id, Ok(Identifier { value: VALUE }));
}

#[test]
fn decode_reads_the_smallest_and_the_largest() {
    assert_eq!(
        Identifier::decode("00000000-0000-0000-0000-000000000000"),
        Ok(Identifier { value: 0 })
    );
    assert_eq!(
        Identifier::decode("ffffffff-ffff-ffff-ffff-ffffffffffff"),
        Ok(Identifier { value: u128::MAX })
    );
}

#[test]
fn decode_refuses_what_is_not_an_identifier() {
    let malformed = Err(IdentityError::MalformedIdentifier);
    assert_eq!(Identifier::decode(""), malformed);
    assert_eq!(Identifier::decode("alice"), malformed);
    assert_eq!(Identifier::decode("67e55044-10b1-426f-9247-bb680e5fe0c"), malformed);
    assert_eq!(Identifier::decode("67e55044-10b1-426f-9247-bb680e5fe0c88"), malformed);
    assert_eq!(Identifier::decode("67e55044-10b1-426f-9247-bb680e5fe0cg"), malformed);
    assert_eq!(Identifier::decode("67e5504410b1-426f-9247-bb680e5fe0c8-"), malformed);
    assert_eq!(Identifier::decode("67e55044+10b1+426f+9247+bb680e5fe0c8"), malformed);
    assert_eq!(Identifier::decode("{67e5504410b1426f9247bb680e5fe0c8}"), malformed);
    assert_eq!(Identifier::decode("[67e55044-10b1-426f-9247-bb680e5fe0c8]"), malformed);
    assert_eq!(Identifier::decode("{67e55044-10b1-426f-9247-bb680e5fe0c8"), malformed);
    assert_eq!(Identifier::decode("urn-uuid-67e55044-10b1-426f-9247-bb680e5fe0c8"), malformed);
    assert_eq!(Identifier::decode("67e5504410b1426f9247bb680e5fe0c\u{e9}"), malformed);
    assert_eq!(Identifier::decode(" 67e55044-10b1-426f-9247-bb680e5fe0c8"), malformed);
}

#[test]
fn encode_writes_grouped_lower_case_digits() {
    let id = Identifier { value: VALUE };
    assert_eq!(id.encode(), "67e55044-10b1-426f-9247-bb680e5fe0c8");
    assert_eq!(Identifier { value: 0 }.encode(), "00000000-0000-0000-0000-000000000000");
    assert_eq!(Identifier { value: 10 }.encode(), "00000000-0000-0000-0000-00000000000a");
    assert_eq!(
        Identifier { value: u128::MAX }.encode(),
        "ffffffff-ffff-ffff-ffff-ffffffffffff"
    );
}

#[test]
fn encode_of_decode_gives_a_canonical_text_back() {
    let texts = [
        "67e55044-10b1-426f-9247-bb680e5fe0c8",
        "00000000-0000-0000-0000-000000000000",
        "0123abcd-4567-89ef-aaaa-0f0f0f0f0f0f",
    ];
    for text in texts {
        let id = Identifier::decode(text).unwrap();
        assert_eq!(id.encode(), text);
    }
}

#[test]
fn encode_of_decode_settles_on_the_canonical_text() {
    let id = Identifier::decode("{67E55044-10B1-426F-9247-BB680E5FE0C8}").unwrap();
    assert_eq!(id.encode(), "67e55044-10b1-426f-9247-bb680e5fe0c8");
    assert_eq!(Identifier::decode(&id.encode()), Ok(id));
}

#[test]
fn decode_of_encode_gives_the_identifier_back() {
    let values = [0u128, 1, 255, 256, VALUE, u128::MAX - 1, u128::MAX, 1 << 127, 1 << 64];
    for value in values {
        let id = Identifier { value };
        assert_eq!(Identifier::decode(&id.encode()), Ok(id));
    }
}

#[test]
fn binary_form_holds_the_sixteen_bytes_under_the_subtype() {
    let form = Identifier { value: VALUE }.to_binary();
    assert_eq!(form.subtype, IDENTIFIER_SUBTYPE);
    assert_eq!(form.subtype, 0);
    assert_eq!(form.bytes, BYTES.to_vec());
    let one = Identifier { value: 1 }.to_binary();
    assert_eq!(one.bytes, vec![0, 0, 0, 0, 0, 0, 0, 0, 0, 0, 0, 0, 0, 0, 0, 1]);
}

#[test]
fn binary_form_round_trips() {
    let values = [0u128, 1, 255, 256, VALUE, u128::MAX];
    for value in values {
        let id = Identifier { value };
        assert_eq!(Identifier::from_binary(&id.to_binary()), Ok(id));
    }
    let form = BinaryForm { subtype: IDENTIFIER_SUBTYPE, bytes: BYTES.to_vec() };
    let id = Identifier::from_binary(&form).unwrap();
    assert_eq!(id, Identifier { value: VALUE });
    assert_eq!(id.to_binary(), form);
}

#[test]
fn binary_form_is_refused_with_another_subtype_or_length() {
    let malformed = Err(IdentityError::MalformedIdentifier);
    let tagged = BinaryForm { subtype: 4, bytes: BYTES.to_vec() };
    assert_eq!(Identifier::from_binary(&tagged), malformed);
    let short = BinaryForm { subtype: IDENTIFIER_SUBTYPE, bytes: BYTES[..15].to_vec() };
    assert_eq!(Identifier::from_binary(&short), malformed);
    let mut bytes = BYTES.to_vec();
    bytes.push(0);
    let long = BinaryForm { subtype: IDENTIFIER_SUBTYPE, bytes };
    assert_eq!(Identifier::from_binary(&long), malformed);
    let empty = BinaryForm { subtype: IDENTIFIER_SUBTYPE, bytes: Vec::new() };
    assert_eq!(Identifier::from_binary(&empty), malformed);
}

#[test]
fn text_and_binary_forms_name_the_same_identifier() {
    let from_text = Identifier::decode("67e55044-10b1-426f-9247-bb680e5fe0c8").unwrap();
    let from_binary =
        Identifier::from_binary(&BinaryForm { subtype: 0, bytes: BYTES.to_vec() }).unwrap();
    assert_eq!(from_text, from_binary);
    assert_ne!(Encoding::Text, Encoding::Binary);
}

#[test]
fn fresh_identifiers_differ() {
    let one = Identifier::fresh();
    let other = Identifier::fresh();
    assert_ne!(one, other);
    assert_eq!(Identifier::decode(&one.encode()), Ok(one));
}

#[test]
fn record_key_reads_twenty_four_digits() {
    assert_eq!(
        RecordId::decode("507f1f77bcf86cd799439011"),
        Ok(RecordId { value: 0x507f1f77bcf86cd799439011 })
    );
    assert_eq!(
        RecordId::decode("507F1F77BCF86CD799439011"),
        Ok(RecordId { value: 0x507f1f77bcf86cd799439011 })
    );
    assert_eq!(RecordId::decode("000000000000000000000000"), Ok(RecordId { value: 0 }));
    assert_eq!(
        RecordId::decode("ffffffffffffffffffffffff"),
        Ok(RecordId { value: (1u128 << 96) - 1 })
    );
}

#[test]
fn record_key_refuses_other_texts() {
    let malformed = Err(IdentityError::MalformedIdentifier);
    assert_eq!(RecordId::decode(""), malformed);
    assert_eq!(RecordId::decode("507f1f77bcf86cd79943901"), malformed);
    assert_eq!(RecordId::decode("507f1f77bcf86cd7994390111"), malformed);
    assert_eq!(RecordId::decode("507f1f77bcf86cd79943901g"), malformed);
    assert_eq!(RecordId::decode("67e55044-10b1-426f-9247-bb680e5fe0c8"), malformed);
}

#[test]
fn pack_reads_bytes_most_significant_first() {
    assert_eq!(pack(&Vec::new()), 0);
    assert_eq!(pack(&vec![1]), 1);
    assert_eq!(pack(&vec![1, 0]), 256);
    assert_eq!(pack(&vec![0x12, 0x34, 0x56]), 0x123456);
    assert_eq!(pack(&BYTES.to_vec()), VALUE);
    assert_eq!(pack(&vec![0xff; 16]), u128::MAX);
}

#[test]
fn a_fresh_identifier_has_version_four_and_the_common_variant() {
    let mask: u128 = 0x0000_0000_0000_f000_c000_0000_0000_0000;
    let bits: u128 = 0x0000_0000_0000_4000_8000_0000_0000_0000;
    for _ in 0..200 {
        let id = Identifier::fresh();
        assert_eq!(id.value & mask, bits);
        let text = id.encode();
        assert_eq!(text.as_bytes()[14], b'4');
        assert!(matches!(text.as_bytes()[19], b'8' | b'9' | b'a' | b'b'));
    }
}
