//! Executable field decoders, proved against the parse functions of the shape
//! module and the canonical text forms of the render module.

use crate::codec::read_bool;
use crate::codec::read_u16;
use crate::codec::read_u32;
use crate::codec::read_u64;
use crate::codec::read_u8;
use crate::record::Value;
use crate::render::append_base58;
use crate::render::append_dec;
use crate::render::append_escaped;
use crate::render::group_text;
use crate::render::group_text_rest;
use crate::render::list_text;
use crate::render::list_text_rest;
use crate::render::plain_model;
use crate::render::render;
use crate::render::render_each;
use crate::render::rendered_model;
use crate::render::tuple_text;
use crate::render::tuple_text_rest;
use crate::shape::lemma_parse_shape_bounds;
use crate::shape::parse_group_from;
use crate::shape::parse_items;
use crate::shape::parse_shape;
use crate::shape::parse_text;
use crate::shape::Parsed;
use crate::shape::Shape;
use vstd::prelude::*;
use vstd::slice::slice_subrange;
use vstd::slice::slice_to_vec;
use vstd::string::StringExecFns;
use vstd::utf8::decode_utf8;
use vstd::utf8::valid_utf8;

verus! {

/// Relies on `String::from_utf8`: it returns `Ok` exactly when the bytes are
/// valid UTF-8, and then decodes them.
#[verifier::external_body]
fn utf8_to_string(bytes: Vec<u8>) -> (r: Option<String>)
    ensures
        r is Some <==> valid_utf8(bytes@),
        r matches Some(s) ==> s@ == decode_utf8(bytes@),
{
    String::from_utf8(bytes).ok()
}

/// Reads a 32-bit count followed by that many UTF-8 bytes.
pub fn read_text(data: &[u8], pos: usize) -> (r: Option<(String, usize)>)
    ensures
        match parse_text(data@, pos as int) {
            Some((s, end)) => r matches Some((t, e)) && t@ == s && e == end,
            None => r is None,
        },
{
    match read_u32(data, pos) {
        None => None,
        Some((n, mid)) => {
            let nlen = n as usize;
            if nlen <= data.len() - mid {
                let chunk = slice_subrange(data, mid, mid + nlen);
                let raw = slice_to_vec(chunk);
                match utf8_to_string(raw) {
                    Some(s) => Some((s, mid + nlen)),
                    None => None,
                }
            } else {
                None
            }
        },
    }
}

/// Renders one value of the given shape into `out`, returning the position
/// just past the consumed bytes. On malformed bytes nothing is promised about
/// the text already appended; the caller discards it.
pub fn render_shape(s: &Shape, data: &[u8], pos: usize, out: &mut String) -> (r: Option<usize>)
    requires
        pos <= data@.len(),
    ensures
        match parse_shape(*s, data@, pos as int) {
            Some((p, end)) => r matches Some(e) && e == end && final(out)@ == old(out)@ + render(
                p,
            ),
            None => r is None,
        },
    decreases *s, 0int, 0int,
{
    match s {
        Shape::U8 => {
            match read_u8(data, pos) {
                Some((v, end)) => {
                    append_dec(out, v as u64);
                    Some(end)
                },
                None => None,
            }
        },
        Shape::U16 => {
            match read_u16(data, pos) {
                Some((v, end)) => {
                    append_dec(out, v as u64);
                    Some(end)
                },
                None => None,
            }
        },
        Shape::U32 => {
            match read_u32(data, pos) {
                Some((v, end)) => {
                    append_dec(out, v as u64);
                    Some(end)
                },
                None => None,
            }
        },
        Shape::U64 => {
            match read_u64(data, pos) {
                Some((v, end)) => {
                    append_dec(out, v);
                    Some(end)
                },
                None => None,
            }
        },
        Shape::Boolean => {
            match read_bool(data, pos) {
                Some((b, end)) => {
                    if b {
                        out.append("true");
                    } else {
                        out.append("false");
                    }
                    Some(end)
                },
                None => None,
            }
        },
        Shape::Text => {
            match read_text(data, pos) {
                Some((t, end)) => {
                    out.append("\"");
                    append_escaped(out, t.as_str());
                    out.append("\"");
                    proof {
                        let p = parse_shape(Shape::Text, data@, pos as int).unwrap().0;
                        assert(out@ =~= old(out)@ + render(p));
                    }
                    Some(end)
                },
                None => None,
            }
        },
        Shape::Key => {
            if pos < data.len() && data.len() - pos >= 32 {
                let chunk = slice_subrange(data, pos, pos + 32);
                append_base58(out, chunk);
                Some(pos + 32)
            } else {
                None
            }
        },
        Shape::Optional(inner) => {
            match read_u8(data, pos) {
                Some((tag, mid)) => {
                    if tag == 0 {
                        out.append("None");
                        Some(mid)
                    } else if tag == 1 {
                        out.append("Some(");
                        match render_shape(inner, data, mid, out) {
                            Some(end) => {
                                out.append(")");
                                proof {
                                    let pin = parse_shape(**inner, data@, mid as int).unwrap().0;
                                    let p = parse_shape(*s, data@, pos as int).unwrap().0;
                                    assert(p == Parsed::Present(Box::new(pin)));
                                    assert(render(p) == "Some("@ + render(pin) + ")"@);
                                    assert(out@ =~= old(out)@ + render(p));
                                }
                                Some(end)
                            },
                            None => None,
                        }
                    } else {
                        None
                    }
                },
                None => None,
            }
        },
        Shape::Repeat(inner) => {
            match read_u32(data, pos) {
                Some((n, mid)) => {
                    out.append("[");
                    match render_elems(inner, n, data, mid, out, false) {
                        Some(end) => {
                            out.append("]");
                            proof {
                                let ps = parse_items(
                                    **inner,
                                    n as int,
                                    data@,
                                    mid as int,
                                ).unwrap().0;
                                let p = parse_shape(*s, data@, pos as int).unwrap().0;
                                assert(p == Parsed::Items(ps));
                                assert(render(p) == "["@ + list_text(ps) + "]"@);
                                assert(out@ =~= old(out)@ + render(p));
                            }
                            Some(end)
                        },
                        None => None,
                    }
                },
                None => None,
            }
        },
        Shape::Labels(labels) => {
            match read_u8(data, pos) {
                Some((idx, end)) => {
                    let i = idx as usize;
                    if i < labels.len() {
                        out.append(labels[i].as_str());
                        Some(end)
                    } else {
                        None
                    }
                },
                None => None,
            }
        },
        Shape::Group(name, fields) => {
            out.append(name.as_str());
            if fields.len() == 0 {
                proof {
                    let pr = parse_group_from(*fields, data@, pos as int, 0);
                    assert(pr == Some((Seq::<(Seq<char>, Parsed)>::empty(), pos as int)));
                    let pp = parse_shape(*s, data@, pos as int);
                    assert(pp is Some);
                    let p = pp.unwrap().0;
                    assert(p == Parsed::Fields(name@, Seq::empty()));
                    assert(render(p) == name@);
                    assert(out@ =~= old(out)@ + name@);
                    assert(out@ =~= old(out)@ + render(p));
                }
                Some(pos)
            } else if fields[0].0.as_str().is_empty() {
                out.append("(");
                match render_tuple_fields(fields, 0, data, pos, out, false) {
                    Some(end) => {
                        out.append(")");
                        proof {
                            let (pairs, _) = parse_group_from(
                                *fields,
                                data@,
                                pos as int,
                                0,
                            ).unwrap();
                            assert(pairs[0].0 == fields@[0].0@);
                            let p = parse_shape(*s, data@, pos as int).unwrap().0;
                            assert(render(p) == name@ + "("@ + tuple_text(pairs) + ")"@);
                            assert(out@ =~= old(out)@ + render(p));
                        }
                        Some(end)
                    },
                    None => None,
                }
            } else {
                out.append(" { ");
                match render_fields(fields, 0, data, pos, out, false) {
                    Some(end) => {
                        out.append(" }");
                        proof {
                            let (pairs, _) = parse_group_from(
                                *fields,
                                data@,
                                pos as int,
                                0,
                            ).unwrap();
                            assert(pairs[0].0 == fields@[0].0@);
                            let p = parse_shape(*s, data@, pos as int).unwrap().0;
                            assert(out@ =~= old(out)@ + render(p));
                        }
                        Some(end)
                    },
                    None => None,
                }
            }
        },
    }
}

/// Renders `n` consecutive values, comma-separated; `rest` says whether a
/// separator is owed before the first one.
fn render_elems(
    elem: &Shape,
    n: u32,
    data: &[u8],
    pos: usize,
    out: &mut String,
    rest: bool,
) -> (r: Option<usize>)
    requires
        pos <= data@.len(),
    ensures
        match parse_items(*elem, n as int, data@, pos as int) {
            Some((ps, end)) => r matches Some(e) && e == end && final(out)@ == old(out)@ + (
            if rest {
                list_text_rest(ps)
            } else {
                list_text(ps)
            }),
            None => r is None,
        },
    decreases *elem, 1int, n as int,
{
    if n == 0 {
        proof {
            assert(old(out)@ + Seq::<char>::empty() =~= old(out)@);
        }
        Some(pos)
    } else {
        if rest {
            out.append(", ");
        }
        match render_shape(elem, data, pos, out) {
            Some(mid) => {
                proof {
                    lemma_parse_shape_bounds(*elem, data@, pos as int);
                }
                match render_elems(elem, n - 1, data, mid, out, true) {
                    Some(end) => {
                        proof {
                            let (p, _) = parse_shape(*elem, data@, pos as int).unwrap();
                            let (ps, _) = parse_items(
                                *elem,
                                n as int - 1,
                                data@,
                                mid as int,
                            ).unwrap();
                            let cons = seq![p] + ps;
                            assert(cons.drop_first() =~= ps);
                            assert(cons[0] == p);
                            if rest {
                                assert(out@ =~= old(out)@ + list_text_rest(cons));
                            } else {
                                assert(out@ =~= old(out)@ + list_text(cons));
                            }
                        }
                        Some(end)
                    },
                    None => None,
                }
            },
            None => None,
        }
    }
}

/// Renders the fields of a group from declaration index `i` on.
fn render_fields(
    fields: &Vec<(String, Shape)>,
    i: usize,
    data: &[u8],
    pos: usize,
    out: &mut String,
    rest: bool,
) -> (r: Option<usize>)
    requires
        pos <= data@.len(),
        i <= fields@.len(),
    ensures
        match parse_group_from(*fields, data@, pos as int, i as int) {
            Some((pairs, end)) => r matches Some(e) && e == end && final(out)@ == old(out)@ + (
            if rest {
                group_text_rest(pairs)
            } else {
                group_text(pairs)
            }),
            None => r is None,
        },
    decreases *fields, 0int, fields@.len() - i,
{
    if i == fields.len() {
        proof {
            assert(old(out)@ + Seq::<char>::empty() =~= old(out)@);
        }
        Some(pos)
    } else {
        if rest {
            out.append(", ");
        }
        let pair = &fields[i];
        out.append(pair.0.as_str());
        out.append(": ");
        match render_shape(&pair.1, data, pos, out) {
            Some(mid) => {
                proof {
                    lemma_parse_shape_bounds(fields@[i as int].1, data@, pos as int);
                }
                match render_fields(fields, i + 1, data, mid, out, true) {
                    Some(end) => {
                        proof {
                            let (p, _) = parse_shape(
                                fields@[i as int].1,
                                data@,
                                pos as int,
                            ).unwrap();
                            let (pairs, _) = parse_group_from(
                                *fields,
                                data@,
                                mid as int,
                                i as int + 1,
                            ).unwrap();
                            let cons = seq![(fields@[i as int].0@, p)] + pairs;
                            assert(cons.drop_first() =~= pairs);
                            assert(cons[0] == (fields@[i as int].0@, p));
                            if rest {
                                assert(out@ =~= old(out)@ + group_text_rest(cons));
                            } else {
                                assert(out@ =~= old(out)@ + group_text(cons));
                            }
                        }
                        Some(end)
                    },
                    None => None,
                }
            },
            None => None,
        }
    }
}

/// Renders the values of a positional group from declaration index `i` on.
fn render_tuple_fields(
    fields: &Vec<(String, Shape)>,
    i: usize,
    data: &[u8],
    pos: usize,
    out: &mut String,
    rest: bool,
) -> (r: Option<usize>)
    requires
        pos <= data@.len(),
        i <= fields@.len(),
    ensures
        match parse_group_from(*fields, data@, pos as int, i as int) {
            Some((pairs, end)) => r matches Some(e) && e == end && final(out)@ == old(out)@ + (
            if rest {
                tuple_text_rest(pairs)
            } else {
                tuple_text(pairs)
            }),
            None => r is None,
        },
    decreases *fields, 0int, fields@.len() - i,
{
    if i == fields.len() {
        proof {
            assert(old(out)@ + Seq::<char>::empty() =~= old(out)@);
        }
        Some(pos)
    } else {
        if rest {
            out.append(", ");
        }
        let pair = &fields[i];
        match render_shape(&pair.1, data, pos, out) {
            Some(mid) => {
                proof {
                    lemma_parse_shape_bounds(fields@[i as int].1, data@, pos as int);
                }
                match render_tuple_fields(fields, i + 1, data, mid, out, true) {
                    Some(end) => {
                        proof {
                            let (p, _) = parse_shape(
                                fields@[i as int].1,
                                data@,
                                pos as int,
                            ).unwrap();
                            let (pairs, _) = parse_group_from(
                                *fields,
                                data@,
                                mid as int,
                                i as int + 1,
                            ).unwrap();
                            let cons = seq![(fields@[i as int].0@, p)] + pairs;
                            assert(cons.drop_first() =~= pairs);
                            assert(cons[0] == (fields@[i as int].0@, p));
                            if rest {
                                assert(out@ =~= old(out)@ + tuple_text_rest(cons));
                            } else {
                                assert(out@ =~= old(out)@ + tuple_text(cons));
                            }
                        }
                        Some(end)
                    },
                    None => None,
                }
            },
            None => None,
        }
    }
}

/// Renders `n` consecutive values, each into a text of its own.
fn collect_elems(elem: &Shape, n: u32, data: &[u8], pos: usize, out: &mut Vec<String>) -> (r:
    Option<usize>)
    requires
        pos <= data@.len(),
    ensures
        match parse_items(*elem, n as int, data@, pos as int) {
            Some((ps, end)) => r matches Some(e) && e == end && final(out).deep_view() == old(
                out,
            ).deep_view() + render_each(ps),
            None => r is None,
        },
    decreases n,
{
    if n == 0 {
        proof {
            assert(old(out).deep_view() + render_each(Seq::empty()) =~= old(out).deep_view());
        }
        Some(pos)
    } else {
        let mut buf = String::new();
        match render_shape(elem, data, pos, &mut buf) {
            Some(mid) => {
                out.push(buf);
                proof {
                    lemma_parse_shape_bounds(*elem, data@, pos as int);
                }
                match collect_elems(elem, n - 1, data, mid, out) {
                    Some(end) => {
                        proof {
                            let (p, _) = parse_shape(*elem, data@, pos as int).unwrap();
                            let (ps, _) = parse_items(
                                *elem,
                                n as int - 1,
                                data@,
                                mid as int,
                            ).unwrap();
                            let cons = seq![p] + ps;
                            assert(out.deep_view() =~= old(out).deep_view() + render_each(cons));
                        }
                        Some(end)
                    },
                    None => None,
                }
            },
            None => None,
        }
    }
}

/// Decodes one field kept as a plain value.
pub fn decode_plain(s: &Shape, data: &[u8], pos: usize) -> (r: Option<(Value, usize)>)
    requires
        pos <= data@.len(),
    ensures
        match parse_shape(*s, data@, pos as int) {
            Some((p, end)) => r matches Some((v, e)) && e == end && v@ == plain_model(p),
            None => r is None,
        },
    decreases *s,
{
    match s {
        Shape::U8 => {
            match read_u8(data, pos) {
                Some((v, end)) => Some((Value::U8(v), end)),
                None => None,
            }
        },
        Shape::U16 => {
            match read_u16(data, pos) {
                Some((v, end)) => Some((Value::U16(v), end)),
                None => None,
            }
        },
        Shape::U32 => {
            match read_u32(data, pos) {
                Some((v, end)) => Some((Value::U32(v), end)),
                None => None,
            }
        },
        Shape::U64 => {
            match read_u64(data, pos) {
                Some((v, end)) => Some((Value::U64(v), end)),
                None => None,
            }
        },
        Shape::Boolean => {
            match read_bool(data, pos) {
                Some((b, end)) => Some((Value::Bool(b), end)),
                None => None,
            }
        },
        Shape::Text => {
            match read_text(data, pos) {
                Some((t, end)) => Some((Value::Text(t), end)),
                None => None,
            }
        },
        Shape::Labels(labels) => {
            match read_u8(data, pos) {
                Some((idx, end)) => {
                    let i = idx as usize;
                    if i < labels.len() {
                        Some((Value::Text(labels[i].clone()), end))
                    } else {
                        None
                    }
                },
                None => None,
            }
        },
        Shape::Optional(inner) => {
            match read_u8(data, pos) {
                Some((tag, mid)) => {
                    if tag == 0 {
                        Some((Value::Null, mid))
                    } else if tag == 1 {
                        let r = decode_plain(inner, data, mid);
                        proof {
                            if parse_shape(**inner, data@, mid as int) is Some {
                                let pin = parse_shape(**inner, data@, mid as int).unwrap().0;
                                let p = parse_shape(*s, data@, pos as int).unwrap().0;
                                assert(p == Parsed::Present(Box::new(pin)));
                                assert(plain_model(p) == plain_model(pin));
                            }
                        }
                        r
                    } else {
                        None
                    }
                },
                None => None,
            }
        },
        Shape::Repeat(_) => decode_rendered_composite(s, data, pos),
        Shape::Key => decode_rendered_composite(s, data, pos),
        Shape::Group(_, _) => decode_rendered_composite(s, data, pos),
    }
}

/// Decodes one field kept as rendered text.
pub fn decode_rendered(s: &Shape, data: &[u8], pos: usize) -> (r: Option<(Value, usize)>)
    requires
        pos <= data@.len(),
    ensures
        match parse_shape(*s, data@, pos as int) {
            Some((p, end)) => r matches Some((v, e)) && e == end && v@ == rendered_model(p),
            None => r is None,
        },
{
    match s {
        Shape::Optional(inner) => {
            match read_u8(data, pos) {
                Some((tag, mid)) => {
                    if tag == 0 {
                        Some((Value::Null, mid))
                    } else if tag == 1 {
                        let mut buf = String::new();
                        match render_shape(inner, data, mid, &mut buf) {
                            Some(end) => {
                                proof {
                                    let pin = parse_shape(**inner, data@, mid as int).unwrap().0;
                                    let p = parse_shape(*s, data@, pos as int).unwrap().0;
                                    assert(p == Parsed::Present(Box::new(pin)));
                                    assert(buf@ =~= render(pin));
                                }
                                Some((Value::Text(buf), end))
                            },
                            None => None,
                        }
                    } else {
                        None
                    }
                },
                None => None,
            }
        },
        Shape::Repeat(_) => decode_rendered_composite(s, data, pos),
        _ => {
            let mut buf = String::new();
            match render_shape(s, data, pos, &mut buf) {
                Some(end) => {
                    proof {
                        let p = parse_shape(*s, data@, pos as int).unwrap().0;
                        assert(buf@ =~= render(p));
                    }
                    Some((Value::Text(buf), end))
                },
                None => None,
            }
        },
    }
}

/// Decodes a repetition into a list of texts, or any other shape into one
/// text; shared by the plain and the rendered coercions, which agree on
/// composite shapes.
fn decode_rendered_composite(s: &Shape, data: &[u8], pos: usize) -> (r: Option<(Value, usize)>)
    requires
        pos <= data@.len(),
        s matches Shape::Repeat(_) || s matches Shape::Key || s matches Shape::Group(_, _),
    ensures
        match parse_shape(*s, data@, pos as int) {
            Some((p, end)) => r matches Some((v, e)) && e == end && v@ == rendered_model(p)
                && v@ == plain_model(p),
            None => r is None,
        },
{
    match s {
        Shape::Repeat(inner) => {
            match read_u32(data, pos) {
                Some((n, mid)) => {
                    let mut items: Vec<String> = Vec::new();
                    match collect_elems(inner, n, data, mid, &mut items) {
                        Some(end) => {
                            proof {
                                let (ps, _) = parse_items(
                                    **inner,
                                    n as int,
                                    data@,
                                    mid as int,
                                ).unwrap();
                                assert(items.deep_view() =~= render_each(ps));
                            }
                            Some((Value::TextList(items), end))
                        },
                        None => None,
                    }
                },
                None => None,
            }
        },
        _ => {
            let mut buf = String::new();
            match render_shape(s, data, pos, &mut buf) {
                Some(end) => {
                    proof {
                        let p = parse_shape(*s, data@, pos as int).unwrap().0;
                        assert(buf@ =~= render(p));
                    }
                    Some((Value::Text(buf), end))
                },
                None => None,
            }
        },
    }
}

} // verus!
