//! Laws of the decode-dispatch pipeline, stated over the specification
//! functions that the executable functions are proved against: what unknown
//! tags yield, that decoding is a function of its inputs, and that enrichment
//! only appends.

use crate::codec::le_value;
use crate::decoder::fields_values;
use crate::decoder::spec_decode;
use crate::decoder::DecodeError;
use crate::handler::account_model;
use crate::handler::enriched_values;
use crate::handler::Context;
use crate::record::first_key_position;
use crate::record::with_value;
use crate::record::RecordModel;
use crate::record::ValueModel;
use crate::registry::find_variant;
use crate::registry::FieldDef;
use crate::registry::Registry;
use crate::shape::lemma_parse_items_bounds;
use crate::shape::lemma_parse_shape_bounds;
use crate::shape::parse_group_from;
use crate::shape::parse_items;
use crate::shape::parse_shape;
use crate::shape::Shape;
use vstd::prelude::*;
use vstd::utf8::valid_utf8;

verus! {

/// Decoding an unregistered tag reports exactly that tag and nothing else:
/// whatever the payload after the tag holds, no field decoding is reached and
/// the result is the same.
pub proof fn lemma_unknown_tag_skipped(registry: Registry, tag: u8, payload: Seq<u8>)
    requires
        !registry.spec_has_tag(tag),
    ensures
        spec_decode(registry, seq![tag] + payload) == Err::<RecordModel, DecodeError>(
            DecodeError::UnknownInstruction(tag),
        ),
        forall|other: Seq<u8>|
            spec_decode(registry, seq![tag] + other) == spec_decode(registry, seq![tag] + payload),
{
    let raw = seq![tag] + payload;
    assert(raw[0] == tag);
    assert forall|other: Seq<u8>|
        spec_decode(registry, seq![tag] + other) == spec_decode(
            registry,
            seq![tag] + payload,
        ) by {
        assert((seq![tag] + other)[0] == tag);
    }
}

/// Decoding the same byte buffer twice yields structurally equal records:
/// the decoder's result is a function of the registry and the bytes alone, so
/// two successful decodes of one buffer agree on the name, the field keys,
/// their order, and the values.
pub proof fn lemma_decode_deterministic(
    registry: Registry,
    raw: Seq<u8>,
    m1: RecordModel,
    m2: RecordModel,
)
    requires
        spec_decode(registry, raw) == Ok::<RecordModel, DecodeError>(m1),
        spec_decode(registry, raw) == Ok::<RecordModel, DecodeError>(m2),
    ensures
        m1 == m2,
        m1.name == m2.name,
        m1.values == m2.values,
{
}

/// Setting a field keeps every key already present, in its place; a key other
/// than the one being set keeps its value too; and the field list never
/// shrinks.
pub proof fn lemma_with_value_additive(
    values: Seq<(Seq<char>, ValueModel)>,
    key: Seq<char>,
    value: ValueModel,
)
    ensures
        with_value(values, key, value).len() >= values.len(),
        forall|i: int|
            0 <= i < values.len() ==> #[trigger] with_value(values, key, value)[i].0
                == values[i].0,
        forall|i: int|
            0 <= i < values.len() && values[i].0 != key ==> #[trigger] with_value(
                values,
                key,
                value,
            )[i] == values[i],
{
    lemma_first_key_in_range(values, key);
}

/// The first position of a key either is -1 or carries the key.
proof fn lemma_first_key_in_range(values: Seq<(Seq<char>, ValueModel)>, key: Seq<char>)
    ensures
        first_key_position(values, key) == -1 || (0 <= first_key_position(values, key)
            < values.len() && values[first_key_position(values, key)].0 == key),
    decreases values.len(),
{
    if values.len() > 0 && values[0].0 != key {
        lemma_first_key_in_range(values.drop_first(), key);
    }
}

/// Enrichment is additive-only: every field of the decoded record keeps its
/// key and its position, a field whose key is none of the three context keys
/// keeps its value, and the enriched record is never shorter. The handler
/// appends context fields; it removes and renames nothing.
pub proof fn lemma_enrichment_additive(
    values: Seq<(Seq<char>, ValueModel)>,
    ctx: Context,
    with_account: bool,
)
    ensures
        enriched_values(values, ctx, with_account).len() >= values.len(),
        forall|i: int|
            0 <= i < values.len() ==> #[trigger] enriched_values(values, ctx, with_account)[i].0
                == values[i].0,
        forall|i: int|
            0 <= i < values.len() && values[i].0 != "block_timestamp"@ && values[i].0 != "tx_hash"@
                && values[i].0 != "account_name"@ ==> #[trigger] enriched_values(
                values,
                ctx,
                with_account,
            )[i] == values[i],
{
    let v1 = with_value(values, "block_timestamp"@, ValueModel::U64(ctx.block_timestamp));
    lemma_with_value_additive(values, "block_timestamp"@, ValueModel::U64(ctx.block_timestamp));
    lemma_with_value_additive(
        v1,
        "tx_hash"@,
        ValueModel::Text(
            crate::handler::joined(ctx.signatures.deep_view(), ",'"@),
        ),
    );
    let v2 = with_value(
        v1,
        "tx_hash"@,
        ValueModel::Text(
            crate::handler::joined(ctx.signatures.deep_view(), ",'"@),
        ),
    );
    if with_account {
        lemma_with_value_additive(v2, "account_name"@, account_model(ctx.accounts.deep_view(), 0));
    }
}

/// An out-of-range positional account lookup yields null, never an error: the
/// account at a position past the end of the account list is the null value.
pub proof fn lemma_out_of_range_account_null(accounts: Seq<Seq<char>>, i: int)
    requires
        i < 0 || i >= accounts.len(),
    ensures
        account_model(accounts, i) == ValueModel::Null,
{
}

/// Decoding a variant's fields yields one value per declared field, under the
/// declared key, in declaration order.
proof fn lemma_fields_values_keys(fields: Vec<FieldDef>, bytes: Seq<u8>, pos: int, i: int)
    requires
        0 <= i <= fields.len(),
    ensures
        fields_values(fields, bytes, pos, i) matches Some((vals, end)) ==> vals.len()
            == fields@.len() - i && forall|j: int|
            0 <= j < vals.len() ==> #[trigger] vals[j].0 == fields@[i + j].key@,
    decreases fields.len() - i,
{
    if i < fields@.len() {
        if let Some((p, mid)) = parse_shape(fields@[i as int].shape, bytes, pos) {
            lemma_fields_values_keys(fields, bytes, mid, i + 1);
        }
    }
}

/// A decoded record keeps a stable shape: its name is the resolved variant's
/// canonical name, and its fields are exactly the declared keys, one each, in
/// declaration order -- whatever the payload held.
pub proof fn lemma_record_shape(registry: Registry, raw: Seq<u8>)
    ensures
        spec_decode(registry, raw) matches Ok(m) ==> ({
            let v = find_variant(registry.variants@, raw[0]).unwrap();
            &&& m.name == v.name@
            &&& m.values.len() == v.fields@.len()
            &&& forall|j: int|
                0 <= j < m.values.len() ==> #[trigger] m.values[j].0 == v.fields@[j].key@
        }),
{
    if raw.len() > 0 {
        if let Some(v) = find_variant(registry.variants@, raw[0]) {
            lemma_fields_values_keys(v.fields, raw, 1, 0);
        }
    }
}

/// The shortest payload a shape accepts: zero counts, absent optionals, the
/// zero label, and zero-filled fixed-width values.
pub open spec fn min_bytes(s: Shape) -> Seq<u8>
    decreases s, 0int, 0int,
{
    match s {
        Shape::U8 => seq![0u8],
        Shape::U16 => seq![0u8, 0u8],
        Shape::U32 => seq![0u8, 0u8, 0u8, 0u8],
        Shape::U64 => seq![0u8, 0u8, 0u8, 0u8, 0u8, 0u8, 0u8, 0u8],
        Shape::Boolean => seq![0u8],
        Shape::Text => seq![0u8, 0u8, 0u8, 0u8],
        Shape::Key => Seq::new(32, |i: int| 0u8),
        Shape::Optional(_) => seq![0u8],
        Shape::Repeat(_) => seq![0u8, 0u8, 0u8, 0u8],
        Shape::Labels(_) => seq![0u8],
        Shape::Group(_, fields) => min_group_bytes(fields, 0),
    }
}

/// The shortest payload of a group's fields from declaration index `i` on.
pub open spec fn min_group_bytes(fields: Vec<(String, Shape)>, i: int) -> Seq<u8>
    decreases fields, 0int, fields.len() - i,
{
    if i < 0 || i >= fields.len() {
        Seq::empty()
    } else {
        min_bytes(fields[i].1) + min_group_bytes(fields, i + 1)
    }
}

/// Whether the minimal payload of a shape is accepted: every label set that
/// the minimal path reaches must be non-empty. Optional and repeated inner
/// shapes are not reached, since the minimal payload leaves them out.
pub open spec fn min_wf(s: Shape) -> bool
    decreases s, 0int, 0int,
{
    match s {
        Shape::Labels(labels) => labels.len() > 0,
        Shape::Group(_, fields) => group_min_wf(fields, 0),
        _ => true,
    }
}

/// Whether the fields of a group from index `i` on all accept their minimal
/// payloads.
pub open spec fn group_min_wf(fields: Vec<(String, Shape)>, i: int) -> bool
    decreases fields, 0int, fields.len() - i,
{
    i < 0 || i >= fields.len() || (min_wf(fields[i].1) && group_min_wf(fields, i + 1))
}

/// An all-zero byte sequence denotes zero.
proof fn lemma_le_value_zero(s: Seq<u8>)
    requires
        forall|j: int| 0 <= j < s.len() ==> s[j] == 0,
    ensures
        le_value(s) == 0,
    decreases s.len(),
{
    if s.len() > 0 {
        assert(forall|j: int| 0 <= j < s.drop_first().len() ==> s.drop_first()[j] == 0);
        lemma_le_value_zero(s.drop_first());
    }
}

/// A shape's minimal payload parses, consuming exactly its length.
pub proof fn lemma_min_parse(s: Shape, bytes: Seq<u8>, pos: int)
    requires
        min_wf(s),
        0 <= pos,
        pos + min_bytes(s).len() <= bytes.len(),
        bytes.subrange(pos, pos + min_bytes(s).len()) == min_bytes(s),
    ensures
        parse_shape(s, bytes, pos) matches Some((p, end)) && end == pos + min_bytes(s).len(),
    decreases s, 0int, 0int,
{
    match s {
        Shape::Boolean => {
            assert(bytes.subrange(pos, pos + 1)[0] == bytes[pos]);
            assert(bytes[pos] == 0);
        },
        Shape::Text => {
            let four = bytes.subrange(pos, pos + 4);
            assert(forall|j: int| 0 <= j < 4 ==> four[j] == min_bytes(s)[j]);
            lemma_le_value_zero(four);
            assert(bytes.subrange(pos + 4, pos + 4) =~= Seq::<u8>::empty());
            assert(valid_utf8(Seq::<u8>::empty()));
        },
        Shape::Optional(_) => {
            assert(bytes.subrange(pos, pos + 1)[0] == bytes[pos]);
            assert(bytes[pos] == 0);
        },
        Shape::Repeat(inner) => {
            let four = bytes.subrange(pos, pos + 4);
            assert(forall|j: int| 0 <= j < 4 ==> four[j] == min_bytes(s)[j]);
            lemma_le_value_zero(four);
            assert(parse_items(*inner, 0, bytes, pos + 4) == Some(
                (Seq::<crate::shape::Parsed>::empty(), pos + 4),
            ));
        },
        Shape::Labels(labels) => {
            assert(bytes.subrange(pos, pos + 1)[0] == bytes[pos]);
            assert(bytes[pos] == 0);
        },
        Shape::Group(name, fields) => {
            lemma_min_parse_group(fields, bytes, pos, 0);
        },
        _ => {},
    }
}

/// The minimal payload of a group's fields from index `i` on parses,
/// consuming exactly its length and yielding one pair per field.
pub proof fn lemma_min_parse_group(fields: Vec<(String, Shape)>, bytes: Seq<u8>, pos: int, i: int)
    requires
        group_min_wf(fields, i),
        0 <= pos,
        0 <= i,
        pos + min_group_bytes(fields, i).len() <= bytes.len(),
        bytes.subrange(pos, pos + min_group_bytes(fields, i).len()) == min_group_bytes(fields, i),
    ensures
        parse_group_from(fields, bytes, pos, i) matches Some((pairs, end)) && end == pos
            + min_group_bytes(fields, i).len() && (i <= fields.len() ==> pairs.len()
            == fields@.len() - i),
    decreases fields, 0int, fields.len() - i,
{
    if i < fields@.len() {
        let head = min_bytes(fields@[i].1);
        let rest = min_group_bytes(fields, i + 1);
        assert(bytes.subrange(pos, pos + head.len()) =~= head);
        lemma_min_parse(fields@[i].1, bytes, pos);
        let whole = bytes.subrange(pos, pos + head.len() + rest.len());
        assert forall|j: int| 0 <= j < rest.len() implies #[trigger] rest[j] == bytes[pos
            + head.len() + j] by {
            assert(whole[head.len() + j] == bytes[pos + head.len() + j]);
            assert(whole[head.len() + j] == rest[j]);
        }
        assert(bytes.subrange(pos + head.len(), pos + head.len() + rest.len()) =~= rest);
        lemma_min_parse_group(fields, bytes, pos + head.len(), i + 1);
    }
}

/// The shortest payload of a variant's declared fields from index `i` on.
pub open spec fn min_payload_from(fields: Vec<FieldDef>, i: int) -> Seq<u8>
    decreases fields.len() - i,
{
    if i < 0 || i >= fields.len() {
        Seq::empty()
    } else {
        min_bytes(fields[i].shape) + min_payload_from(fields, i + 1)
    }
}

/// The shortest payload a registered variant accepts: the minimal payload of
/// each declared field, in declaration order.
pub open spec fn min_payload(fields: Vec<FieldDef>) -> Seq<u8> {
    min_payload_from(fields, 0)
}

/// Whether a variant's declared fields from index `i` on all accept their
/// minimal payloads.
pub open spec fn fields_min_wf(fields: Vec<FieldDef>, i: int) -> bool
    decreases fields.len() - i,
{
    i < 0 || i >= fields.len() || (min_wf(fields[i].shape) && fields_min_wf(fields, i + 1))
}

proof fn lemma_min_fields(fields: Vec<FieldDef>, bytes: Seq<u8>, pos: int, i: int)
    requires
        fields_min_wf(fields, i),
        0 <= pos,
        0 <= i,
        pos + min_payload_from(fields, i).len() <= bytes.len(),
        bytes.subrange(pos, pos + min_payload_from(fields, i).len()) == min_payload_from(
            fields,
            i,
        ),
    ensures
        fields_values(fields, bytes, pos, i) matches Some((vals, end)) && end == pos
            + min_payload_from(fields, i).len() && (i <= fields.len() ==> vals.len()
            == fields@.len() - i),
    decreases fields.len() - i,
{
    if 0 <= i < fields@.len() {
        let head = min_bytes(fields@[i].shape);
        let rest = min_payload_from(fields, i + 1);
        assert(bytes.subrange(pos, pos + head.len()) =~= head);
        lemma_min_parse(fields@[i].shape, bytes, pos);
        let whole = bytes.subrange(pos, pos + head.len() + rest.len());
        assert forall|j: int| 0 <= j < rest.len() implies #[trigger] rest[j] == bytes[pos
            + head.len() + j] by {
            assert(whole[head.len() + j] == bytes[pos + head.len() + j]);
            assert(whole[head.len() + j] == rest[j]);
        }
        assert(bytes.subrange(pos + head.len(), pos + head.len() + rest.len()) =~= rest);
        lemma_min_fields(fields, bytes, pos + head.len(), i + 1);
    }
}

/// For every registered tag whose declared layout accepts its minimal
/// payload, resolving the tag and decoding that payload of exactly the
/// declared width succeeds, and the record carries the variant's name and one
/// field per declared field.
pub proof fn lemma_minimal_payload_decodes(registry: Registry, tag: u8)
    requires
        find_variant(registry.variants@, tag) is Some,
        fields_min_wf(find_variant(registry.variants@, tag).unwrap().fields, 0),
    ensures
        ({
            let v = find_variant(registry.variants@, tag).unwrap();
            let raw = seq![tag] + min_payload(v.fields);
            spec_decode(registry, raw) matches Ok(m) && m.name == v.name@ && m.values.len()
                == v.fields@.len()
        }),
{
    let v = find_variant(registry.variants@, tag).unwrap();
    let payload = min_payload(v.fields);
    let raw = seq![tag] + payload;
    assert(raw[0] == tag);
    assert(raw.len() == 1 + payload.len());
    assert(raw.subrange(1, 1 + payload.len() as int) =~= payload);
    lemma_min_fields(v.fields, raw, 1, 0);
}

/// Parsing sees only the bytes it consumes: on a truncation of the buffer, a
/// parse that fit inside the kept prefix returns the same reading, and one
/// that consumed past the cut fails. No truncation yields a different
/// reading, and none panics.
pub proof fn lemma_parse_prefix(s: Shape, bytes: Seq<u8>, m: int, pos: int)
    requires
        0 <= pos <= m <= bytes.len(),
    ensures
        parse_shape(s, bytes, pos) matches Some((p, end)) ==> {
            &&& end <= m ==> parse_shape(s, bytes.take(m), pos) == parse_shape(s, bytes, pos)
            &&& end > m ==> parse_shape(s, bytes.take(m), pos) is None
        },
    decreases s, 0int, 0int,
{
    let short = bytes.take(m);
    let orig = parse_shape(s, bytes, pos);
    match s {
        Shape::U8 => {
            if orig is Some && orig.unwrap().1 <= m {
                assert(parse_shape(s, short, pos) == orig);
            }
        },
        Shape::Boolean => {
            if orig is Some && orig.unwrap().1 <= m {
                assert(parse_shape(s, short, pos) == orig);
            }
        },
        Shape::Labels(labels) => {
            if orig is Some && orig.unwrap().1 <= m {
                assert(parse_shape(s, short, pos) == orig);
            }
        },
        Shape::U16 => {
            if pos + 2 <= m {
                assert(short.subrange(pos, pos + 2) =~= bytes.subrange(pos, pos + 2));
            }
        },
        Shape::U32 => {
            if pos + 4 <= m {
                assert(short.subrange(pos, pos + 4) =~= bytes.subrange(pos, pos + 4));
            }
        },
        Shape::U64 => {
            if pos + 8 <= m {
                assert(short.subrange(pos, pos + 8) =~= bytes.subrange(pos, pos + 8));
            }
        },
        Shape::Key => {
            if pos + 32 <= m {
                assert(short.subrange(pos, pos + 32) =~= bytes.subrange(pos, pos + 32));
            }
        },
        Shape::Text => {
            if pos + 4 <= bytes.len() {
                let n = le_value(bytes.subrange(pos, pos + 4));
                crate::codec::lemma_le_value_bound(bytes.subrange(pos, pos + 4));
                if pos + 4 <= m {
                    assert(short.subrange(pos, pos + 4) =~= bytes.subrange(pos, pos + 4));
                    if pos + 4 + n <= m {
                        assert(short.subrange(pos + 4, pos + 4 + n) =~= bytes.subrange(
                            pos + 4,
                            pos + 4 + n,
                        ));
                    }
                }
                if orig is Some && orig.unwrap().1 <= m {
                    assert(parse_shape(s, short, pos) == orig);
                }
                if orig is Some && orig.unwrap().1 > m {
                    assert(parse_shape(s, short, pos) is None);
                }
            }
        },
        Shape::Optional(inner) => {
            if pos + 1 <= bytes.len() && bytes[pos] == 1 {
                lemma_parse_shape_bounds(*inner, bytes, pos + 1);
                if pos + 1 <= m {
                    lemma_parse_prefix(*inner, bytes, m, pos + 1);
                }
                if orig is Some && orig.unwrap().1 <= m {
                    assert(parse_shape(s, short, pos) == orig);
                }
                if orig is Some && orig.unwrap().1 > m {
                    assert(parse_shape(s, short, pos) is None);
                }
            }
        },
        Shape::Repeat(inner) => {
            if pos + 4 <= bytes.len() {
                let n = le_value(bytes.subrange(pos, pos + 4));
                if pos + 4 <= m {
                    assert(short.subrange(pos, pos + 4) =~= bytes.subrange(pos, pos + 4));
                    lemma_items_prefix(*inner, n, bytes, m, pos + 4);
                }
                if orig is Some && orig.unwrap().1 <= m {
                    crate::shape::lemma_parse_items_bounds(*inner, n, bytes, pos + 4);
                    assert(parse_shape(s, short, pos) == orig);
                }
                if orig is Some && orig.unwrap().1 > m {
                    assert(parse_shape(s, short, pos) is None);
                }
            }
        },
        Shape::Group(name, fields) => {
            lemma_group_prefix(fields, bytes, m, pos, 0);
            if orig is Some && orig.unwrap().1 <= m {
                assert(parse_shape(s, short, pos) == orig);
            }
            if orig is Some && orig.unwrap().1 > m {
                assert(parse_shape(s, short, pos) is None);
            }
        },
    }
}

/// The prefix property of `lemma_parse_prefix`, for a run of `n` values.
pub proof fn lemma_items_prefix(elem: Shape, n: int, bytes: Seq<u8>, m: int, pos: int)
    requires
        0 <= pos <= m <= bytes.len(),
    ensures
        parse_items(elem, n, bytes, pos) matches Some((ps, end)) ==> {
            &&& end <= m ==> parse_items(elem, n, bytes.take(m), pos) == parse_items(
                elem,
                n,
                bytes,
                pos,
            )
            &&& end > m ==> parse_items(elem, n, bytes.take(m), pos) is None
        },
    decreases elem, 1int, n,
{
    if n > 0 {
        if let Some((p, mid)) = parse_shape(elem, bytes, pos) {
            lemma_parse_shape_bounds(elem, bytes, pos);
            lemma_parse_prefix(elem, bytes, m, pos);
            if let Some((ps, end)) = parse_items(elem, n - 1, bytes, mid) {
                lemma_parse_items_bounds(elem, n - 1, bytes, mid);
                if mid <= m {
                    lemma_items_prefix(elem, n - 1, bytes, m, mid);
                }
            }
        }
    }
}

/// The prefix property of `lemma_parse_prefix`, for a group's fields.
pub proof fn lemma_group_prefix(
    fields: Vec<(String, Shape)>,
    bytes: Seq<u8>,
    m: int,
    pos: int,
    i: int,
)
    requires
        0 <= pos <= m <= bytes.len(),
    ensures
        parse_group_from(fields, bytes, pos, i) matches Some((pairs, end)) ==> {
            &&& end <= m ==> parse_group_from(fields, bytes.take(m), pos, i) == parse_group_from(
                fields,
                bytes,
                pos,
                i,
            )
            &&& end > m ==> parse_group_from(fields, bytes.take(m), pos, i) is None
        },
    decreases fields, 0int, fields.len() - i,
{
    if 0 <= i < fields.len() {
        if let Some((p, mid)) = parse_shape(fields[i as int].1, bytes, pos) {
            lemma_parse_shape_bounds(fields[i as int].1, bytes, pos);
            lemma_parse_prefix(fields[i as int].1, bytes, m, pos);
            if let Some((pairs, end)) = parse_group_from(fields, bytes, mid, i + 1) {
                crate::shape::lemma_parse_group_bounds(fields, bytes, mid, i + 1);
                if mid <= m {
                    lemma_group_prefix(fields, bytes, m, mid, i + 1);
                }
            }
        }
    }
}

/// The prefix property of `lemma_parse_prefix`, for a variant's declared
/// fields.
proof fn lemma_fields_prefix(fields: Vec<FieldDef>, bytes: Seq<u8>, m: int, pos: int, i: int)
    requires
        0 <= pos <= m <= bytes.len(),
    ensures
        fields_values(fields, bytes, pos, i) matches Some((vals, end)) ==> {
            &&& end <= m ==> fields_values(fields, bytes.take(m), pos, i) == fields_values(
                fields,
                bytes,
                pos,
                i,
            )
            &&& end > m ==> fields_values(fields, bytes.take(m), pos, i) is None
        },
    decreases fields.len() - i,
{
    if 0 <= i < fields.len() {
        if let Some((p, mid)) = parse_shape(fields[i as int].shape, bytes, pos) {
            lemma_parse_shape_bounds(fields[i as int].shape, bytes, pos);
            lemma_parse_prefix(fields[i as int].shape, bytes, m, pos);
            if let Some((vals, end)) = fields_values(fields, bytes, mid, i + 1) {
                lemma_fields_values_bounds(fields, bytes, mid, i + 1);
                if mid <= m {
                    lemma_fields_prefix(fields, bytes, m, mid, i + 1);
                }
            }
        }
    }
}

/// Decoding a variant's fields never moves the cursor backwards or past the
/// end of the buffer.
proof fn lemma_fields_values_bounds(fields: Vec<FieldDef>, bytes: Seq<u8>, pos: int, i: int)
    requires
        pos <= bytes.len(),
    ensures
        fields_values(fields, bytes, pos, i) matches Some((vals, end)) ==> pos <= end
            <= bytes.len(),
    decreases fields.len() - i,
{
    if 0 <= i < fields.len() {
        lemma_parse_shape_bounds(fields[i as int].shape, bytes, pos);
        if let Some((p, mid)) = parse_shape(fields[i as int].shape, bytes, pos) {
            lemma_fields_values_bounds(fields, bytes, mid, i + 1);
        }
    }
}

/// For every registered variant, a payload cut shorter than the width its
/// declared layout accepts -- by one byte or more -- fails with
/// `MalformedPayload`: no truncation ever yields a record, partially
/// populated or otherwise.
pub proof fn lemma_truncated_payload_fails(registry: Registry, raw: Seq<u8>, m: int)
    requires
        spec_decode(registry, raw) is Ok,
        1 <= m < raw.len(),
    ensures
        spec_decode(registry, raw.take(m)) == Err::<RecordModel, DecodeError>(
            DecodeError::MalformedPayload,
        ),
{
    let short = raw.take(m);
    assert(short[0] == raw[0]);
    let v = find_variant(registry.variants@, raw[0]).unwrap();
    lemma_fields_prefix(v.fields, raw, m, 1, 0);
}

} // verus!
