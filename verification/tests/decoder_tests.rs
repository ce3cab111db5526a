use instruction_indexer::decoder::decode;
use instruction_indexer::decoder::DecodeError;
use instruction_indexer::record::Value;
use instruction_indexer::registry::FieldDef;
use instruction_indexer::registry::OutputMode;
use instruction_indexer::registry::Registry;
use instruction_indexer::registry::VariantDef;
use instruction_indexer::shape::Shape;

/// A registry with one variant: tag 1 is "Swap" with two 64-bit fields.
fn swap_registry() -> Registry {
    Registry {
        variants: vec![VariantDef {
            tag: 1,
            name: "Swap".to_string(),
            fields: vec![
                FieldDef {
                    key: "amount_in".to_string(),
                    shape: Shape::U64,
                    mode: OutputMode::Plain,
                },
                FieldDef {
                    key: "minimum_amount_out".to_string(),
                    shape: Shape::U64,
                    mode: OutputMode::Plain,
                },
            ],
        }],
    }
}

#[test]
fn swap_example_decodes() {
    let registry = swap_registry();
    let raw = [
        0x01, 0x10, 0x00, 0x00, 0x00, 0x00, 0x00, 0x00, 0x00, 0x20, 0x00, 0x00, 0x00, 0x00, 0x00,
        0x00, 0x00,
    ];
    let record = decode(&registry, &raw).unwrap();
    assert_eq!(record.name, "Swap");
    assert_eq!(
        record.values,
        vec![
            ("amount_in".to_string(), Value::U64(16)),
            ("minimum_amount_out".to_string(), Value::U64(32)),
        ]
    );
}

#[test]
fn unknown_tag_is_reported_with_the_tag() {
    let registry = swap_registry();
    let raw = [0x07, 0x10, 0x00];
    assert_eq!(decode(&registry, &raw), Err(DecodeError::UnknownInstruction(7)));
    // The payload after the tag plays no part.
    assert_eq!(decode(&registry, &[0x07]), Err(DecodeError::UnknownInstruction(7)));
}

#[test]
fn short_payload_is_malformed() {
    let registry = swap_registry();
    let mut raw = vec![0x01u8];
    raw.extend_from_slice(&[0u8; 16]);
    assert!(decode(&registry, &raw).is_ok());
    // Every truncation by at least one byte fails, and no partial record
    // comes back.
    for cut in 1..raw.len() {
        assert_eq!(decode(&registry, &raw[..cut]), Err(DecodeError::MalformedPayload));
    }
}

#[test]
fn leftover_bytes_are_malformed() {
    let registry = swap_registry();
    let mut raw = vec![0x01u8];
    raw.extend_from_slice(&[0u8; 17]);
    assert_eq!(decode(&registry, &raw), Err(DecodeError::MalformedPayload));
}

#[test]
fn empty_buffer_is_malformed() {
    let registry = swap_registry();
    assert_eq!(decode(&registry, &[]), Err(DecodeError::MalformedPayload));
}

#[test]
fn decoding_twice_yields_equal_records() {
    let registry = swap_registry();
    let mut raw = vec![0x01u8];
    raw.extend_from_slice(&[7u8; 16]);
    let first = decode(&registry, &raw).unwrap();
    let second = decode(&registry, &raw).unwrap();
    assert_eq!(first, second);
    assert_eq!(first.name, second.name);
    assert_eq!(first.values, second.values);
}

#[test]
fn resolve_finds_registered_tags_only() {
    let registry = swap_registry();
    assert!(registry.resolve(1).is_some());
    assert_eq!(registry.resolve(1).unwrap().name, "Swap");
    assert!(registry.resolve(0).is_none());
    assert!(registry.resolve(255).is_none());
}
