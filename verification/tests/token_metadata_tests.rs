use instruction_indexer::decoder::DecodeError;
use instruction_indexer::record::Value;
use instruction_indexer::token_metadata::InstructionParser;

fn text(s: &str) -> Value {
    Value::Text(s.to_string())
}

/// Appends a length-prefixed string.
fn push_text(raw: &mut Vec<u8>, s: &str) {
    raw.extend_from_slice(&(s.len() as u32).to_le_bytes());
    raw.extend_from_slice(s.as_bytes());
}

#[test]
fn create_metadata_account_keeps_data_key_as_null() {
    let mut raw = vec![0u8];
    push_text(&mut raw, "");
    push_text(&mut raw, "");
    push_text(&mut raw, "");
    raw.extend_from_slice(&[0, 0]); // seller_fee_basis_points
    raw.push(0); // creators absent
    raw.push(1); // is_mutable
    let parser = InstructionParser::new();
    let record = parser.unpack_instruction(&raw).unwrap();
    assert_eq!(record.name, "CreateMetadataAccount");
    assert_eq!(
        record.values,
        vec![
            ("data".to_string(), Value::Null),
            ("is_mutable".to_string(), Value::Bool(true)),
        ]
    );
}

#[test]
fn update_metadata_account_renders_the_asset_data() {
    // One real on-chain update instruction, byte for byte.
    let raw: [u8; 238] = [
        1, 1, 16, 0, 0, 0, 67, 108, 117, 98, 32, 83, 117, 105, 116, 101, 32, 35, 52, 56, 50, 48,
        5, 0, 0, 0, 83, 85, 73, 84, 69, 92, 0, 0, 0, 104, 116, 116, 112, 115, 58, 47, 47, 98, 97,
        102, 121, 98, 101, 105, 102, 104, 52, 52, 53, 119, 101, 116, 115, 113, 110, 102, 117, 105,
        108, 100, 102, 121, 98, 102, 108, 122, 107, 119, 116, 101, 106, 118, 118, 122, 51, 99, 52,
        50, 51, 110, 114, 113, 121, 107, 112, 106, 109, 53, 108, 104, 115, 106, 119, 103, 108,
        105, 46, 105, 112, 102, 115, 46, 100, 119, 101, 98, 46, 108, 105, 110, 107, 47, 52, 56,
        49, 57, 46, 106, 115, 111, 110, 244, 1, 1, 3, 0, 0, 0, 139, 166, 189, 24, 187, 126, 222,
        195, 58, 127, 249, 242, 55, 191, 228, 160, 168, 87, 114, 208, 22, 222, 84, 150, 230, 71,
        25, 54, 238, 230, 36, 207, 1, 0, 6, 65, 156, 6, 69, 48, 246, 214, 66, 103, 66, 217, 59,
        252, 205, 155, 71, 130, 219, 39, 90, 159, 10, 158, 105, 79, 210, 149, 191, 206, 251, 237,
        0, 10, 13, 10, 167, 88, 83, 155, 49, 35, 66, 86, 112, 205, 49, 38, 22, 30, 22, 59, 47, 75,
        110, 133, 40, 188, 60, 130, 30, 149, 65, 28, 200, 32, 0, 90, 0, 0,
    ];
    let parser = InstructionParser::new();
    let record = parser.unpack_instruction(&raw).unwrap();
    assert_eq!(record.name, "UpdateMetadataAccount");
    assert_eq!(record.values.len(), 3);
    assert_eq!(record.values[0].0, "data");
    let expected = "Data { name: \"Club Suite #4820\", symbol: \"SUITE\", uri: \
                    \"https://bafybeifh445wetsqnfuildfybflzkwtejvvz3c423nrqykpjm5lhsjwgli.ipfs.\
                    dweb.link/4819.json\", seller_fee_basis_points: 500, creators: \
                    Some([Creator { address: \
                    AQ98oUJQuTsX446cYJgEJJRTnQL4b2LiaFTp95nfa2qc, verified: true, share: 0 }, \
                    Creator { address: RRUMF9KYPcvNSmnicNMAFKx5wDYix3wjNa6bA7R6xqA, verified: \
                    false, share: 10 }, Creator { address: \
                    suiteaXg3pUFmhvVeFQpY6cPL5UtTaZASgCTfrSqPkT, verified: false, share: 90 }]) \
                    }";
    assert_eq!(record.values[0].1, text(expected));
    assert_eq!(record.values[1], ("update_authority".to_string(), Value::Null));
    assert_eq!(record.values[2], ("primary_sale_happened".to_string(), Value::Null));
}

#[test]
fn invalid_utf8_in_text_is_malformed() {
    let mut raw = vec![1u8, 1];
    raw.extend_from_slice(&[2, 0, 0, 0, 0xff, 0xfe]); // name: invalid UTF-8
    let parser = InstructionParser::new();
    assert_eq!(parser.unpack_instruction(&raw), Err(DecodeError::MalformedPayload));
}

#[test]
fn create_master_edition_optional_supply() {
    let parser = InstructionParser::new();
    let mut with_supply = vec![10u8, 1];
    with_supply.extend_from_slice(&[10, 0, 0, 0, 0, 0, 0, 0]);
    let record = parser.unpack_instruction(&with_supply).unwrap();
    assert_eq!(record.name, "CreateMasterEdition");
    assert_eq!(record.values, vec![("max_supply".to_string(), Value::U64(10))]);
    let record = parser.unpack_instruction(&[10, 0]).unwrap();
    assert_eq!(record.values, vec![("max_supply".to_string(), Value::Null)]);
}

#[test]
fn set_reservation_list_renders_reservations() {
    let mut raw = vec![5u8];
    raw.extend_from_slice(&[1, 0, 0, 0]); // one reservation
    raw.extend_from_slice(&[0x22; 32]);
    raw.extend_from_slice(&[4, 0, 0, 0, 0, 0, 0, 0]);
    raw.extend_from_slice(&[9, 0, 0, 0, 0, 0, 0, 0]);
    raw.push(0); // total_reservation_spots absent
    raw.extend_from_slice(&[2, 0, 0, 0, 0, 0, 0, 0]); // offset
    raw.extend_from_slice(&[3, 0, 0, 0, 0, 0, 0, 0]); // total_spot_offset
    let parser = InstructionParser::new();
    let record = parser.unpack_instruction(&raw).unwrap();
    assert_eq!(record.name, "DeprecatedSetReservationList");
    assert_eq!(
        record.values,
        vec![
            (
                "reservations".to_string(),
                Value::TextList(vec![
                    "Reservation { address: 3JF3sEqM796hk5WFqA6EtmEwJQ9quALszsfJyvXNQKy3, \
                     spots_remaining: 4, total_spots: 9 }"
                        .to_string(),
                ]),
            ),
            ("total_reservation_spots".to_string(), Value::Null),
            ("offset".to_string(), Value::U64(2)),
            ("total_spot_offset".to_string(), Value::U64(3)),
        ]
    );
}

#[test]
fn utilize_decodes_use_count() {
    let parser = InstructionParser::new();
    let mut raw = vec![19u8];
    raw.extend_from_slice(&[7, 0, 0, 0, 0, 0, 0, 0]);
    let record = parser.unpack_instruction(&raw).unwrap();
    assert_eq!(record.name, "Utilize");
    assert_eq!(record.values, vec![("number_of_uses".to_string(), Value::U64(7))]);
}

#[test]
fn last_registered_tag_decodes_and_next_does_not() {
    let parser = InstructionParser::new();
    let record = parser.unpack_instruction(&[24]).unwrap();
    assert_eq!(record.name, "RevokeCollectionAuthority");
    assert_eq!(parser.unpack_instruction(&[25]), Err(DecodeError::UnknownInstruction(25)));
}

#[test]
fn update_v2_collection_and_uses_render() {
    let mut raw = vec![15u8, 1];
    push_text(&mut raw, "n");
    push_text(&mut raw, "s");
    push_text(&mut raw, "u");
    raw.extend_from_slice(&[44, 1]); // seller_fee_basis_points = 300
    raw.push(0); // creators absent
    raw.push(1); // collection present
    raw.push(1); // verified
    raw.extend_from_slice(&[0x33; 32]);
    raw.push(1); // uses present
    raw.push(2); // use_method = Single
    raw.extend_from_slice(&[5, 0, 0, 0, 0, 0, 0, 0]);
    raw.extend_from_slice(&[6, 0, 0, 0, 0, 0, 0, 0]);
    raw.push(0); // update_authority absent
    raw.push(1); // primary_sale_happened = Some(true)
    raw.push(1);
    raw.push(0); // is_mutable absent
    let parser = InstructionParser::new();
    let record = parser.unpack_instruction(&raw).unwrap();
    assert_eq!(record.name, "UpdateMetadataAccountV2");
    let expected = "DataV2 { name: \"n\", symbol: \"s\", uri: \"u\", seller_fee_basis_points: \
                    300, creators: None, collection: Some(Collection { verified: true, key: \
                    4Ss5JMkXAD9Z7cktFEdrqeMuT6jGMF1pVozTyPHZ6zT4 }), uses: Some(Uses { \
                    use_method: Single, remaining: 5, total: 6 }) }";
    assert_eq!(
        record.values,
        vec![
            ("data".to_string(), text(expected)),
            ("update_authority".to_string(), Value::Null),
            ("primary_sale_happened".to_string(), Value::Bool(true)),
            ("is_mutable".to_string(), Value::Null),
        ]
    );
}

#[test]
fn every_metadata_tag_accepts_its_minimal_payload() {
    let parser = InstructionParser::new();
    // The minimal payload of every variant: zero counts, absent optionals,
    // zero labels, zero-filled integers.
    let minimal: Vec<Vec<u8>> = vec![
        {
            let mut v = vec![0u8];
            v.extend_from_slice(&[0; 16]);
            v
        },
        vec![1, 0, 0, 0],
        vec![2, 0],
        vec![3],
        vec![4],
        {
            let mut v = vec![5u8];
            v.extend_from_slice(&[0; 21]);
            v
        },
        vec![6],
        vec![7],
        vec![8, 0, 0, 0, 0, 0, 0, 0, 0],
        vec![9, 0, 0, 0, 0, 0, 0, 0, 0],
        vec![10, 0],
        vec![11, 0, 0, 0, 0, 0, 0, 0, 0],
        vec![12],
        vec![13, 0, 0, 0, 0, 0, 0, 0, 0],
        vec![14],
        vec![15, 0, 0, 0, 0],
        {
            let mut v = vec![16u8];
            v.extend_from_slice(&[0; 18]);
            v
        },
        vec![17, 0],
        vec![18],
        vec![19, 0, 0, 0, 0, 0, 0, 0, 0],
        vec![20, 0, 0, 0, 0, 0, 0, 0, 0],
        vec![21],
        vec![22],
        vec![23],
        vec![24],
    ];
    for (tag, raw) in minimal.iter().enumerate() {
        assert_eq!(raw[0] as usize, tag);
        let record = parser.unpack_instruction(raw).unwrap();
        assert_eq!(record.name, parser.registry.variants[tag].name);
        assert_eq!(record.values.len(), parser.registry.variants[tag].fields.len());
        // One byte less always fails.
        if raw.len() > 1 {
            assert_eq!(
                parser.unpack_instruction(&raw[..raw.len() - 1]),
                Err(DecodeError::MalformedPayload)
            );
        }
    }
}

#[test]
fn rendered_text_escapes_quotes_backslashes_and_controls() {
    let mut raw = vec![1u8, 1];
    push_text(&mut raw, "a\"b\\c\nd\u{1}e");
    push_text(&mut raw, "");
    push_text(&mut raw, "");
    raw.extend_from_slice(&[0, 0]);
    raw.push(0); // creators absent
    raw.push(0); // update_authority absent
    raw.push(0); // primary_sale_happened absent
    let parser = InstructionParser::new();
    let record = parser.unpack_instruction(&raw).unwrap();
    let expected = "Data { name: \"a\\\"b\\\\c\\nd\\u{1}e\", symbol: \"\", uri: \"\", \
                    seller_fee_basis_points: 0, creators: None }";
    assert_eq!(record.values[0].1, text(expected));
}
