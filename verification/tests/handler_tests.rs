use instruction_indexer::handler::account_value;
use instruction_indexer::handler::join_texts;
use instruction_indexer::handler::Context;
use instruction_indexer::handler::IndexStore;
use instruction_indexer::handler::TransportValueExt;
use instruction_indexer::metaplex;
use instruction_indexer::record::TransportValue;
use instruction_indexer::record::Value;
use instruction_indexer::token_metadata;

/// A store that records every write.
struct RecordingStore {
    saved: Vec<(String, Vec<(String, Value)>)>,
    flushed: Vec<(String, u64)>,
}

impl RecordingStore {
    fn new() -> RecordingStore {
        RecordingStore { saved: Vec::new(), flushed: Vec::new() }
    }
}

impl IndexStore for RecordingStore {
    fn save_values(&mut self, name: &String, values: &Vec<(String, Value)>) {
        self.saved.push((name.clone(), values.clone()));
    }

    fn flush(&mut self, block_hash: &String, block_number: u64) {
        self.flushed.push((block_hash.clone(), block_number));
    }
}

fn context() -> Context {
    Context {
        block_number: 77,
        block_timestamp: 1234,
        block_hash: "hash77".to_string(),
        signatures: vec!["sigA".to_string(), "sigB".to_string()],
        program_id: "program".to_string(),
        accounts: vec!["acc1".to_string(), "acc2".to_string()],
    }
}

#[test]
fn known_record_is_enriched_and_stored() {
    let handler = metaplex::Handler::new();
    let mut store = RecordingStore::new();
    let mut input = TransportValue::new("SetStore");
    input.set_value("public", Value::Bool(true));
    let out = handler.process(&context(), input, &mut store).unwrap();
    assert_eq!(out.name, "SetStore");
    assert_eq!(
        out.values,
        vec![
            ("public".to_string(), Value::Bool(true)),
            ("block_timestamp".to_string(), Value::U64(1234)),
            ("tx_hash".to_string(), Value::Text("sigA,'sigB".to_string())),
        ]
    );
    assert_eq!(store.saved.len(), 1);
    assert_eq!(store.saved[0].0, "SetStore");
    assert_eq!(store.saved[0].1, out.values);
}

#[test]
fn unknown_record_is_dropped_silently() {
    let handler = metaplex::Handler::new();
    let mut store = RecordingStore::new();
    let input = TransportValue::new("NotARealVariant");
    assert!(handler.process(&context(), input, &mut store).is_none());
    assert_eq!(store.saved.len(), 0);
}

#[test]
fn enrichment_only_appends() {
    let handler = metaplex::Handler::new();
    let mut store = RecordingStore::new();
    let mut input = TransportValue::new("EndAuction");
    input.set_value("reveal", Value::Null);
    let before = input.values.clone();
    let out = handler.process(&context(), input, &mut store).unwrap();
    // Every field of the decoded record is still there, in order, unchanged.
    assert_eq!(&out.values[..before.len()], &before[..]);
    assert!(out.values.len() >= before.len());
}

#[test]
fn account_field_uses_the_first_account() {
    let handler = token_metadata::Handler::new();
    let mut store = RecordingStore::new();
    let mut input = TransportValue::new("SignMetadata");
    let out = handler.process(&context(), input, &mut store).unwrap();
    assert_eq!(
        out.values,
        vec![
            ("block_timestamp".to_string(), Value::U64(1234)),
            ("tx_hash".to_string(), Value::Text("sigA,'sigB".to_string())),
            ("account_name".to_string(), Value::Text("acc1".to_string())),
        ]
    );
    // Collection-authority variants carry no account field.
    input = TransportValue::new("RevokeCollectionAuthority");
    let out = handler.process(&context(), input, &mut store).unwrap();
    assert_eq!(
        out.values,
        vec![
            ("block_timestamp".to_string(), Value::U64(1234)),
            ("tx_hash".to_string(), Value::Text("sigA,'sigB".to_string())),
        ]
    );
}

#[test]
fn missing_account_yields_null_not_a_panic() {
    let handler = token_metadata::Handler::new();
    let mut store = RecordingStore::new();
    let mut ctx = context();
    ctx.accounts = Vec::new();
    let input = TransportValue::new("PuffMetadata");
    let out = handler.process(&ctx, input, &mut store).unwrap();
    assert_eq!(out.values[2], ("account_name".to_string(), Value::Null));
}

#[test]
fn out_of_range_account_lookup_is_null() {
    let accounts = vec!["a".to_string(), "b".to_string()];
    assert_eq!(account_value(&accounts, 5), Value::Null);
    assert_eq!(account_value(&accounts, 2), Value::Null);
    assert_eq!(account_value(&accounts, 1), Value::Text("b".to_string()));
}

#[test]
fn signatures_join_with_the_fixed_delimiter() {
    let parts = vec!["x".to_string(), "y".to_string(), "z".to_string()];
    assert_eq!(join_texts(&parts, ",'"), "x,'y,'z");
    assert_eq!(join_texts(&vec!["only".to_string()], ",'"), "only");
    assert_eq!(join_texts(&Vec::new(), ",'"), "");
}

#[test]
fn save_hands_name_and_fields_to_the_store() {
    let mut store = RecordingStore::new();
    let mut tv = TransportValue::new("Anything");
    tv.set_value("k", Value::U8(1));
    tv.save(&mut store);
    assert_eq!(store.saved, vec![("Anything".to_string(), vec![("k".to_string(), Value::U8(1))])]);
    store.flush(&"h".to_string(), 9);
    assert_eq!(store.flushed, vec![("h".to_string(), 9)]);
}

#[test]
fn set_value_replaces_an_existing_key_in_place() {
    let mut tv = TransportValue::new("X");
    tv.set_value("a", Value::U8(1));
    tv.set_value("b", Value::U8(2));
    tv.set_value("a", Value::U8(3));
    assert_eq!(
        tv.values,
        vec![("a".to_string(), Value::U8(3)), ("b".to_string(), Value::U8(2))]
    );
}
