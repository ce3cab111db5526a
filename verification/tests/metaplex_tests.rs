use instruction_indexer::decoder::DecodeError;
use instruction_indexer::metaplex::InstructionParser;
use instruction_indexer::record::Value;

fn text(s: &str) -> Value {
    Value::Text(s.to_string())
}

#[test]
fn unit_variant_decodes_from_tag_alone() {
    let parser = InstructionParser::new();
    let record = parser.unpack_instruction(&[5]).unwrap();
    assert_eq!(record.name, "StartAuction");
    assert_eq!(record.values, vec![]);
}

#[test]
fn unit_variant_rejects_leftover_bytes() {
    let parser = InstructionParser::new();
    assert_eq!(parser.unpack_instruction(&[5, 0]), Err(DecodeError::MalformedPayload));
}

#[test]
fn empty_payment_account_decodes_optional_indexes() {
    let parser = InstructionParser::new();
    // winning_config_index = Some(5), the other two absent.
    let record = parser.unpack_instruction(&[7, 1, 5, 0, 0]).unwrap();
    assert_eq!(record.name, "EmptyPaymentAccount");
    assert_eq!(
        record.values,
        vec![
            ("winning_config_index".to_string(), Value::U8(5)),
            ("winning_config_item_index".to_string(), Value::Null),
            ("creator_index".to_string(), Value::Null),
        ]
    );
}

#[test]
fn set_store_decodes_bool() {
    let parser = InstructionParser::new();
    let record = parser.unpack_instruction(&[8, 1]).unwrap();
    assert_eq!(record.name, "SetStore");
    assert_eq!(record.values, vec![("public".to_string(), Value::Bool(true))]);
    // A boolean byte other than 0 or 1 is malformed.
    assert_eq!(parser.unpack_instruction(&[8, 2]), Err(DecodeError::MalformedPayload));
}

#[test]
fn proxy_call_label_is_normalized_to_text() {
    let parser = InstructionParser::new();
    let record = parser.unpack_instruction(&[12, 3, 1]).unwrap();
    assert_eq!(record.name, "RedeemUnusedWinningConfigItemsAsAuctioneer");
    assert_eq!(
        record.values,
        vec![
            ("winning_config_item_index".to_string(), Value::U8(3)),
            ("proxy_call".to_string(), text("RedeemFullRightsTransferBid")),
        ]
    );
    // A label index past the declared alternatives is malformed.
    assert_eq!(parser.unpack_instruction(&[12, 3, 2]), Err(DecodeError::MalformedPayload));
}

#[test]
fn init_auction_manager_v2_normalizes_enum_labels() {
    let parser = InstructionParser::new();
    let mut raw = vec![17u8, 1, 8];
    raw.extend_from_slice(&[9, 0, 0, 0, 0, 0, 0, 0]);
    let record = parser.unpack_instruction(&raw).unwrap();
    assert_eq!(record.name, "InitAuctionManagerV2");
    assert_eq!(
        record.values,
        vec![
            ("amount_type".to_string(), text("U8")),
            ("length_type".to_string(), text("U64")),
            ("max_ranges".to_string(), Value::U64(9)),
        ]
    );
}

#[test]
fn validate_safety_deposit_box_v2_decodes_the_full_config() {
    let parser = InstructionParser::new();
    let mut raw = vec![18u8];
    raw.push(9); // key = SafetyDepositConfigV1
    raw.extend_from_slice(&[0x11; 32]); // auction_manager
    raw.extend_from_slice(&[5, 0, 0, 0, 0, 0, 0, 0]); // order
    raw.push(3); // winning_config_type = PrintingV2
    raw.push(1); // amount_type = U8
    raw.push(8); // length_type = U64
    raw.extend_from_slice(&[2, 0, 0, 0]); // two amount ranges
    raw.extend_from_slice(&[16, 0, 0, 0, 0, 0, 0, 0]);
    raw.extend_from_slice(&[32, 0, 0, 0, 0, 0, 0, 0]);
    raw.extend_from_slice(&[1, 0, 0, 0, 0, 0, 0, 0]);
    raw.extend_from_slice(&[2, 0, 0, 0, 0, 0, 0, 0]);
    raw.push(1); // participation_config present
    raw.push(1); // winner_constraint = ParticipationPrizeGiven
    raw.push(2); // non_winning_constraint = GivenForBidPrice
    raw.push(1); // fixed_price present
    raw.extend_from_slice(&[100, 0, 0, 0, 0, 0, 0, 0]);
    raw.push(0); // participation_state absent
    let record = parser.unpack_instruction(&raw).unwrap();
    assert_eq!(record.name, "ValidateSafetyDepositBoxV2");
    assert_eq!(
        record.values,
        vec![
            ("key".to_string(), text("SafetyDepositConfigV1")),
            ("auction_manager".to_string(), text("29d2S7vB453rNYFdR5Ycwt7y9haRT5fwVwL9zTmBhfV2")),
            ("order".to_string(), Value::U64(5)),
            ("winning_config_type".to_string(), text("PrintingV2")),
            ("amount_type".to_string(), text("U8")),
            ("length_type".to_string(), text("U64")),
            (
                "amount_ranges".to_string(),
                Value::TextList(vec![
                    "AmountRange(16, 32)".to_string(),
                    "AmountRange(1, 2)".to_string(),
                ]),
            ),
            (
                "participation_config".to_string(),
                text(
                    "ParticipationConfigV2 { winner_constraint: ParticipationPrizeGiven, \
                     non_winning_constraint: GivenForBidPrice, fixed_price: Some(100) }",
                ),
            ),
            ("participation_state".to_string(), Value::Null),
        ]
    );
}

#[test]
fn deprecated_init_auction_manager_v1_renders_winning_configs() {
    let parser = InstructionParser::new();
    // One winning config holding one item; no participation config.
    let raw = [0u8, 1, 0, 0, 0, 1, 0, 0, 0, 2, 3, 4, 0];
    let record = parser.unpack_instruction(&raw).unwrap();
    assert_eq!(record.name, "DeprecatedInitAuctionManagerV1");
    assert_eq!(
        record.values,
        vec![
            (
                "winning_configs".to_string(),
                Value::TextList(vec![
                    "WinningConfig { items: [WinningConfigItem { safety_deposit_box_index: 2, \
                     amount: 3, winning_config_type: Participation }] }"
                        .to_string(),
                ]),
            ),
            ("participation_config".to_string(), Value::Null),
        ]
    );
}

#[test]
fn end_auction_reveal_is_consumed_but_null() {
    let parser = InstructionParser::new();
    let mut raw = vec![20u8, 1];
    raw.extend_from_slice(&[7, 0, 0, 0, 0, 0, 0, 0]);
    raw.extend_from_slice(&[9, 0, 0, 0, 0, 0, 0, 0]);
    let record = parser.unpack_instruction(&raw).unwrap();
    assert_eq!(record.name, "EndAuction");
    assert_eq!(record.values, vec![("reveal".to_string(), Value::Null)]);
    // The absent reveal also decodes, to the same shape of record.
    let record = parser.unpack_instruction(&[20, 0]).unwrap();
    assert_eq!(record.values, vec![("reveal".to_string(), Value::Null)]);
}

#[test]
fn set_store_v2_uri_is_consumed_but_null() {
    let parser = InstructionParser::new();
    let raw = [23u8, 1, 1, 3, 0, 0, 0, b'a', b'b', b'c'];
    let record = parser.unpack_instruction(&raw).unwrap();
    assert_eq!(record.name, "SetStoreV2");
    assert_eq!(
        record.values,
        vec![
            ("public".to_string(), Value::Bool(true)),
            ("settings_uri".to_string(), Value::Null),
        ]
    );
}

#[test]
fn set_store_index_decodes_two_integers() {
    let parser = InstructionParser::new();
    let mut raw = vec![21u8];
    raw.extend_from_slice(&[3, 0, 0, 0, 0, 0, 0, 0]);
    raw.extend_from_slice(&[40, 0, 0, 0, 0, 0, 0, 0]);
    let record = parser.unpack_instruction(&raw).unwrap();
    assert_eq!(record.name, "SetStoreIndex");
    assert_eq!(
        record.values,
        vec![
            ("page".to_string(), Value::U64(3)),
            ("offset".to_string(), Value::U64(40)),
        ]
    );
}

#[test]
fn tag_past_the_registered_range_is_unknown() {
    let parser = InstructionParser::new();
    assert_eq!(parser.unpack_instruction(&[24]), Err(DecodeError::UnknownInstruction(24)));
    assert_eq!(parser.unpack_instruction(&[255, 1, 2]), Err(DecodeError::UnknownInstruction(255)));
}

#[test]
fn every_metaplex_tag_accepts_its_minimal_payload() {
    let parser = InstructionParser::new();
    // The minimal payload of every variant: zero counts, absent optionals,
    // zero labels, zero-filled integers.
    let minimal: Vec<Vec<u8>> = vec![
        vec![0, 0, 0, 0, 0, 0],
        vec![1],
        vec![2],
        vec![3],
        vec![4],
        vec![5],
        vec![6],
        vec![7, 0, 0, 0],
        vec![8, 0],
        vec![9, 0],
        vec![10],
        vec![11],
        vec![12, 0, 0],
        vec![13],
        vec![14, 0, 0, 0, 0, 0, 0, 0, 0, 0, 0, 0, 0, 0, 0, 0, 0],
        vec![15],
        vec![16],
        vec![17, 0, 0, 0, 0, 0, 0, 0, 0, 0, 0],
        {
            let mut v = vec![18u8, 0];
            v.extend_from_slice(&[0; 32]);
            v.extend_from_slice(&[0; 8]);
            v.extend_from_slice(&[0, 0, 0]);
            v.extend_from_slice(&[0, 0, 0, 0]);
            v.extend_from_slice(&[0, 0]);
            v
        },
        vec![19, 0],
        vec![20, 0],
        vec![21, 0, 0, 0, 0, 0, 0, 0, 0, 0, 0, 0, 0, 0, 0, 0, 0],
        vec![22],
        vec![23, 0, 0],
    ];
    for (tag, raw) in minimal.iter().enumerate() {
        assert_eq!(raw[0] as usize, tag);
        let record = parser.unpack_instruction(raw).unwrap();
        let expected_fields = parser.registry.variants[tag].fields.len();
        assert_eq!(record.name, parser.registry.variants[tag].name);
        assert_eq!(record.values.len(), expected_fields);
        // One byte less always fails.
        if raw.len() > 1 {
            assert_eq!(
                parser.unpack_instruction(&raw[..raw.len() - 1]),
                Err(DecodeError::MalformedPayload)
            );
        }
    }
}

#[test]
fn foreign_program_bytes_fail_without_panicking() {
    // A real update instruction of a different program: its tag resolves to a
    // unit variant here, so the long payload is left over and rejected.
    let mut raw = vec![1u8];
    raw.extend_from_slice(&[7u8; 237]);
    let parser = InstructionParser::new();
    assert_eq!(parser.unpack_instruction(&raw), Err(DecodeError::MalformedPayload));
}
