//! The instruction decoder: resolves the leading tag byte against a registry,
//! decodes the remaining payload field by field, and normalizes the result
//! into a transport record. The whole payload must be consumed; unknown tags
//! and malformed or leftover bytes are reported, never panicked on.

use crate::decode::decode_plain;
use crate::decode::decode_rendered;
use crate::record::TransportValue;
use crate::record::Value;
use crate::record::ValueModel;
use crate::record::RecordModel;
use crate::registry::find_variant;
use crate::registry::FieldDef;
use crate::registry::OutputMode;
use crate::registry::Registry;
use crate::render::plain_model;
use crate::render::rendered_model;
use crate::shape::lemma_parse_shape_bounds;
use crate::shape::parse_shape;
use crate::shape::Parsed;
use vstd::prelude::*;
use vstd::slice::slice_index_get;

verus! {

/// Why one instruction could not be decoded. Both cases are contained to the
/// single instruction: the caller skips it and goes on.
#[derive(Clone, Copy, Debug, PartialEq, Eq)]
pub enum DecodeError {
    /// The leading tag is not registered for this program: not this program's
    /// recognized instruction, to be skipped silently.
    UnknownInstruction(u8),
    /// The tag is known but the payload has too few bytes, malformed
    /// contents, or bytes left over after the declared layout.
    MalformedPayload,
}

/// The record value of one decoded field, by its declared output mode.
pub open spec fn field_model(mode: OutputMode, p: Parsed) -> ValueModel {
    match mode {
        OutputMode::Plain => plain_model(p),
        OutputMode::Rendered => rendered_model(p),
        OutputMode::Nulled => ValueModel::Null,
    }
}

/// The decoded key/value pairs of a variant's fields from declaration index
/// `i` on, with the position just past the consumed bytes.
pub open spec fn fields_values(fields: Vec<FieldDef>, bytes: Seq<u8>, pos: int, i: int) -> Option<
    (Seq<(Seq<char>, ValueModel)>, int),
>
    decreases fields.len() - i,
{
    if i < 0 || i >= fields.len() {
        Some((Seq::empty(), pos))
    } else {
        match parse_shape(fields[i].shape, bytes, pos) {
            Some((p, mid)) => match fields_values(fields, bytes, mid, i + 1) {
                Some((vals, end)) => Some(
                    (seq![(fields[i].key@, field_model(fields[i].mode, p))] + vals, end),
                ),
                None => None,
            },
            None => None,
        }
    }
}

/// The meaning of decoding raw instruction bytes against a registry: the
/// first byte resolves the variant, the rest must decode as the declared
/// fields and be consumed exactly.
pub open spec fn spec_decode(registry: Registry, raw: Seq<u8>) -> Result<RecordModel, DecodeError> {
    if raw.len() == 0 {
        Err(DecodeError::MalformedPayload)
    } else {
        match find_variant(registry.variants@, raw[0]) {
            None => Err(DecodeError::UnknownInstruction(raw[0])),
            Some(v) => match fields_values(v.fields, raw, 1, 0) {
                Some((vals, end)) => if end == raw.len() {
                    Ok(RecordModel { name: v.name@, values: vals })
                } else {
                    Err(DecodeError::MalformedPayload)
                },
                None => Err(DecodeError::MalformedPayload),
            },
        }
    }
}

/// Decodes the fields from declaration index `i` on, appending each decoded
/// field to the record in declaration order.
fn decode_fields(
    fields: &Vec<FieldDef>,
    i: usize,
    data: &[u8],
    pos: usize,
    tv: &mut TransportValue,
) -> (r: Option<usize>)
    requires
        pos <= data@.len(),
        i <= fields@.len(),
    ensures
        match fields_values(*fields, data@, pos as int, i as int) {
            Some((vals, end)) => r matches Some(e) && e == end && final(tv)@.name == old(
                tv,
            )@.name && final(tv)@.values == old(tv)@.values + vals,
            None => r is None,
        },
    decreases fields@.len() - i,
{
    if i == fields.len() {
        proof {
            assert(old(tv)@.values + Seq::<(Seq<char>, ValueModel)>::empty() =~= old(tv)@.values);
        }
        Some(pos)
    } else {
        let fd = &fields[i];
        let decoded: Option<(Value, usize)> = match fd.mode {
            OutputMode::Plain => decode_plain(&fd.shape, data, pos),
            OutputMode::Rendered => decode_rendered(&fd.shape, data, pos),
            OutputMode::Nulled => {
                match decode_rendered(&fd.shape, data, pos) {
                    Some((_, e)) => Some((Value::Null, e)),
                    None => None,
                }
            },
        };
        match decoded {
            Some((v, mid)) => {
                let ghost vm = v@;
                tv.values.push((fd.key.clone(), v));
                proof {
                    lemma_parse_shape_bounds(fields@[i as int].shape, data@, pos as int);
                    assert(tv@.values =~= old(tv)@.values + seq![(fields@[i as int].key@, vm)]);
                }
                let ghost mid_tv = tv@;
                match decode_fields(fields, i + 1, data, mid, tv) {
                    Some(end) => {
                        proof {
                            let (p, _) = parse_shape(
                                fields@[i as int].shape,
                                data@,
                                pos as int,
                            ).unwrap();
                            let (vals, _) = fields_values(
                                *fields,
                                data@,
                                mid as int,
                                i as int + 1,
                            ).unwrap();
                            assert(tv@.values =~= old(tv)@.values + (seq![
                                (fields@[i as int].key@, field_model(fields@[i as int].mode, p)),
                            ] + vals));
                        }
                        Some(end)
                    },
                    None => None,
                }
            },
            None => None,
        }
    }
}

/// Decodes raw instruction bytes into a transport record.
///
/// The record's name is the resolved variant's canonical name and its fields
/// are the declared keys in declaration order, each holding the decoded
/// value. An unregistered tag yields `UnknownInstruction` with that tag; an
/// empty buffer, a payload that is too short or malformed for the declared
/// layout, or one with bytes left over yields `MalformedPayload`.
pub fn decode(registry: &Registry, raw: &[u8]) -> (r: Result<TransportValue, DecodeError>)
    ensures
        match spec_decode(*registry, raw@) {
            Ok(m) => r matches Ok(tv) && tv@ == m,
            Err(e) => r matches Err(err) && err == e,
        },
{
    if raw.len() == 0 {
        return Err(DecodeError::MalformedPayload);
    }
    let tag = *slice_index_get(raw, 0);
    match registry.resolve(tag) {
        None => Err(DecodeError::UnknownInstruction(tag)),
        Some(variant) => {
            let mut tv = TransportValue::new(variant.name.as_str());
            match decode_fields(&variant.fields, 0, raw, 1, &mut tv) {
                Some(end) => {
                    if end == raw.len() {
                        proof {
                            let m = spec_decode(*registry, raw@).unwrap();
                            assert(tv@.values =~= m.values);
                        }
                        Ok(tv)
                    } else {
                        Err(DecodeError::MalformedPayload)
                    }
                },
                None => Err(DecodeError::MalformedPayload),
            }
        },
    }
}

} // verus!
