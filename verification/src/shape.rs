//! The registration-time description of an argument layout, and its meaning:
//! a shape says how the bytes of one field are consumed, and a parse function
//! over byte sequences gives every shape a mathematical reading. Decoders are
//! proved against that reading.
//!
//! Wire conventions, following the borsh serialization format the indexed
//! programs publish: integers are little-endian; a boolean is one strict
//! 0-or-1 byte; an optional value is a 0-or-1 byte followed by the value when
//! present; text and repetitions carry a 32-bit little-endian count first;
//! text bytes must be valid UTF-8; a closed set of named alternatives is one
//! byte indexing the declared labels; a group consumes its fields in declared
//! order.

use crate::codec::le16;
use crate::codec::le32;
use crate::codec::le64;
use crate::codec::le_value;
use crate::codec::spec_bool_from_byte;
use vstd::prelude::*;
use vstd::utf8::*;

verus! {

broadcast use vstd::std_specs::vec::axiom_vec_index_decreases;

/// Byte layout of one field.
pub enum Shape {
    /// One byte, unsigned.
    U8,
    /// Two bytes, little-endian unsigned.
    U16,
    /// Four bytes, little-endian unsigned.
    U32,
    /// Eight bytes, little-endian unsigned.
    U64,
    /// One strict 0-or-1 byte.
    Boolean,
    /// A 32-bit count followed by that many UTF-8 bytes.
    Text,
    /// A 32-byte account key.
    Key,
    /// A 0-or-1 byte, then the inner shape when the byte is 1.
    Optional(Box<Shape>),
    /// A 32-bit count, then that many values of the inner shape.
    Repeat(Box<Shape>),
    /// One byte selecting one of the declared labels.
    Labels(Vec<String>),
    /// A named composite consuming its fields in declared order.
    Group(String, Vec<(String, Shape)>),
}

/// The typed reading of one decoded field, before coercion into the record's
/// value vocabulary.
pub ghost enum Parsed {
    UInt8(u8),
    UInt16(u16),
    UInt32(u32),
    UInt64(u64),
    Truth(bool),
    Chars(Seq<char>),
    Key32(Seq<u8>),
    Missing,
    Present(Box<Parsed>),
    Items(Seq<Parsed>),
    Tag(Seq<char>),
    Fields(Seq<char>, Seq<(Seq<char>, Parsed)>),
}

/// Parses one value of the given shape at `pos`, yielding the typed reading
/// and the position just past the consumed bytes; `None` when the bytes are
/// malformed or run out.
pub open spec fn parse_shape(s: Shape, bytes: Seq<u8>, pos: int) -> Option<(Parsed, int)>
    decreases s, 0int, 0int,
{
    match s {
        Shape::U8 => if pos + 1 <= bytes.len() {
            Some((Parsed::UInt8(bytes[pos]), pos + 1))
        } else {
            None
        },
        Shape::U16 => if pos + 2 <= bytes.len() {
            Some((Parsed::UInt16(le16(bytes.subrange(pos, pos + 2))), pos + 2))
        } else {
            None
        },
        Shape::U32 => if pos + 4 <= bytes.len() {
            Some((Parsed::UInt32(le32(bytes.subrange(pos, pos + 4))), pos + 4))
        } else {
            None
        },
        Shape::U64 => if pos + 8 <= bytes.len() {
            Some((Parsed::UInt64(le64(bytes.subrange(pos, pos + 8))), pos + 8))
        } else {
            None
        },
        Shape::Boolean => if pos + 1 <= bytes.len() {
            match spec_bool_from_byte(bytes[pos]) {
                Some(b) => Some((Parsed::Truth(b), pos + 1)),
                None => None,
            }
        } else {
            None
        },
        Shape::Text => match parse_text(bytes, pos) {
            Some((s, end)) => Some((Parsed::Chars(s), end)),
            None => None,
        },
        Shape::Key => if pos + 32 <= bytes.len() {
            Some((Parsed::Key32(bytes.subrange(pos, pos + 32)), pos + 32))
        } else {
            None
        },
        Shape::Optional(inner) => if pos + 1 <= bytes.len() {
            if bytes[pos] == 0 {
                Some((Parsed::Missing, pos + 1))
            } else if bytes[pos] == 1 {
                match parse_shape(*inner, bytes, pos + 1) {
                    Some((p, end)) => Some((Parsed::Present(Box::new(p)), end)),
                    None => None,
                }
            } else {
                None
            }
        } else {
            None
        },
        Shape::Repeat(inner) => if pos + 4 <= bytes.len() {
            let n = le_value(bytes.subrange(pos, pos + 4));
            match parse_items(*inner, n, bytes, pos + 4) {
                Some((ps, end)) => Some((Parsed::Items(ps), end)),
                None => None,
            }
        } else {
            None
        },
        Shape::Labels(labels) => if pos + 1 <= bytes.len() {
            if (bytes[pos] as int) < labels.len() {
                Some((Parsed::Tag(labels[bytes[pos] as int]@), pos + 1))
            } else {
                None
            }
        } else {
            None
        },
        Shape::Group(name, fields) => match parse_group_from(fields, bytes, pos, 0) {
            Some((pairs, end)) => Some((Parsed::Fields(name@, pairs), end)),
            None => None,
        },
    }
}

/// Parses `n` consecutive values of one shape.
pub open spec fn parse_items(elem: Shape, n: int, bytes: Seq<u8>, pos: int) -> Option<
    (Seq<Parsed>, int),
>
    decreases elem, 1int, n,
{
    if n <= 0 {
        Some((Seq::empty(), pos))
    } else {
        match parse_shape(elem, bytes, pos) {
            Some((p, mid)) => match parse_items(elem, n - 1, bytes, mid) {
                Some((ps, end)) => Some((seq![p] + ps, end)),
                None => None,
            },
            None => None,
        }
    }
}

/// Parses the fields of a group from declaration index `i` on.
pub open spec fn parse_group_from(
    fields: Vec<(String, Shape)>,
    bytes: Seq<u8>,
    pos: int,
    i: int,
) -> Option<(Seq<(Seq<char>, Parsed)>, int)>
    decreases fields, 0int, fields.len() - i,
{
    if i < 0 || i >= fields.len() {
        Some((Seq::empty(), pos))
    } else {
        match parse_shape(fields[i].1, bytes, pos) {
            Some((p, mid)) => match parse_group_from(fields, bytes, mid, i + 1) {
                Some((pairs, end)) => Some((seq![(fields[i].0@, p)] + pairs, end)),
                None => None,
            },
            None => None,
        }
    }
}

/// Parses a 32-bit count followed by that many UTF-8 bytes.
pub open spec fn parse_text(bytes: Seq<u8>, pos: int) -> Option<(Seq<char>, int)> {
    if pos + 4 <= bytes.len() {
        let n = le_value(bytes.subrange(pos, pos + 4));
        if pos + 4 + n <= bytes.len() {
            let raw = bytes.subrange(pos + 4, pos + 4 + n);
            if valid_utf8(raw) {
                Some((decode_utf8(raw), pos + 4 + n))
            } else {
                None
            }
        } else {
            None
        }
    } else {
        None
    }
}

/// A successful parse lands between its start and the end of the buffer.
pub proof fn lemma_parse_shape_bounds(s: Shape, bytes: Seq<u8>, pos: int)
    requires
        pos <= bytes.len(),
    ensures
        parse_shape(s, bytes, pos) matches Some((p, end)) ==> pos <= end <= bytes.len(),
    decreases s, 0int, 0int,
{
    match s {
        Shape::Text => {
            if pos + 4 <= bytes.len() {
                crate::codec::lemma_le_value_bound(bytes.subrange(pos, pos + 4));
            }
        },
        Shape::Optional(inner) => {
            if pos + 1 <= bytes.len() {
                lemma_parse_shape_bounds(*inner, bytes, pos + 1);
            }
        },
        Shape::Repeat(inner) => {
            if pos + 4 <= bytes.len() {
                let n = le_value(bytes.subrange(pos, pos + 4));
                lemma_parse_items_bounds(*inner, n, bytes, pos + 4);
            }
        },
        Shape::Group(name, fields) => {
            lemma_parse_group_bounds(fields, bytes, pos, 0);
        },
        _ => {},
    }
}

pub proof fn lemma_parse_items_bounds(elem: Shape, n: int, bytes: Seq<u8>, pos: int)
    requires
        pos <= bytes.len(),
    ensures
        parse_items(elem, n, bytes, pos) matches Some((ps, end)) ==> pos <= end <= bytes.len(),
    decreases elem, 1int, n,
{
    if n > 0 {
        lemma_parse_shape_bounds(elem, bytes, pos);
        if let Some((p, mid)) = parse_shape(elem, bytes, pos) {
            lemma_parse_items_bounds(elem, n - 1, bytes, mid);
        }
    }
}

pub proof fn lemma_parse_group_bounds(
    fields: Vec<(String, Shape)>,
    bytes: Seq<u8>,
    pos: int,
    i: int,
)
    requires
        pos <= bytes.len(),
    ensures
        parse_group_from(fields, bytes, pos, i) matches Some((pairs, end)) ==> pos <= end
            <= bytes.len(),
    decreases fields, 0int, fields.len() - i,
{
    if 0 <= i < fields.len() {
        lemma_parse_shape_bounds(fields[i].1, bytes, pos);
        if let Some((p, mid)) = parse_shape(fields[i].1, bytes, pos) {
            lemma_parse_group_bounds(fields, bytes, mid, i + 1);
        }
    }
}

} // verus!
