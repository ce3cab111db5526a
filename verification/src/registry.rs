//! The instruction tag registry: a per-program table mapping each leading
//! discriminant byte to the variant's canonical name and the declared layout
//! of its payload fields. Tags are fixed constants of the indexed program's
//! published wire protocol.

use crate::shape::Shape;
use vstd::prelude::*;

verus! {

/// How a decoded field enters the record.
#[derive(Clone, Copy, Debug, PartialEq, Eq, Structural)]
pub enum OutputMode {
    /// Kept as the decoded value itself.
    Plain,
    /// Kept as canonical text (lists of values as lists of texts).
    Rendered,
    /// Bytes are consumed and validated, but the field is recorded as null:
    /// its value cannot be known at decode time, yet the key must appear so
    /// that the record keeps a stable shape.
    Nulled,
}

/// One declared field of a variant's payload.
pub struct FieldDef {
    pub key: String,
    pub shape: Shape,
    pub mode: OutputMode,
}

/// One registered instruction variant.
pub struct VariantDef {
    pub tag: u8,
    pub name: String,
    pub fields: Vec<FieldDef>,
}

/// The per-program registry, ordered by registration.
pub struct Registry {
    pub variants: Vec<VariantDef>,
}

/// One declared field of a variant's payload.
pub fn field_def(key: &str, shape: Shape, mode: OutputMode) -> (r: FieldDef)
    ensures
        r.key@ == key@,
        r.shape == shape,
        r.mode == mode,
{
    FieldDef { key: key.to_owned(), shape, mode }
}

/// One registered variant.
pub fn variant_def(tag: u8, name: &str, fields: Vec<FieldDef>) -> (r: VariantDef)
    ensures
        r.tag == tag,
        r.name@ == name@,
        r.fields == fields,
{
    VariantDef { tag, name: name.to_owned(), fields }
}

/// A registered variant without payload.
pub fn unit_variant(tag: u8, name: &str) -> (r: VariantDef)
    ensures
        r.tag == tag,
        r.name@ == name@,
        r.fields@.len() == 0,
{
    VariantDef { tag, name: name.to_owned(), fields: Vec::new() }
}

/// Whether a registered variant is the named unit variant: the given tag and
/// name, with no payload fields.
pub open spec fn unit_variant_is(v: VariantDef, tag: u8, name: Seq<char>) -> bool {
    v.tag == tag && v.name@ == name && v.fields@.len() == 0
}

/// Whether a declared field carries the given key and output mode.
pub open spec fn field_is(f: FieldDef, key: Seq<char>, mode: OutputMode) -> bool {
    f.key@ == key && f.mode == mode
}

/// The first registered variant carrying the tag, if any.
pub open spec fn find_variant(vs: Seq<VariantDef>, tag: u8) -> Option<VariantDef>
    decreases vs.len(),
{
    if vs.len() == 0 {
        None
    } else if vs[0].tag == tag {
        Some(vs[0])
    } else {
        find_variant(vs.drop_first(), tag)
    }
}

/// When every index below `at` misses the tag and `at` carries it, the
/// variant at `at` is the one found.
pub proof fn lemma_find_variant_prefix(vs: Seq<VariantDef>, tag: u8, at: int)
    requires
        0 <= at < vs.len(),
        vs[at].tag == tag,
        forall|j: int| 0 <= j < at ==> vs[j].tag != tag,
    ensures
        find_variant(vs, tag) == Some(vs[at]),
    decreases at,
{
    if at > 0 {
        lemma_find_variant_prefix(vs.drop_first(), tag, at - 1);
    }
}

/// When no variant carries the tag, none is found.
pub proof fn lemma_find_variant_absent(vs: Seq<VariantDef>, tag: u8)
    requires
        forall|j: int| 0 <= j < vs.len() ==> vs[j].tag != tag,
    ensures
        find_variant(vs, tag) is None,
    decreases vs.len(),
{
    if vs.len() > 0 {
        assert(forall|j: int| 0 <= j < vs.drop_first().len() ==> vs.drop_first()[j].tag != tag);
        lemma_find_variant_absent(vs.drop_first(), tag);
    }
}

impl Registry {
    /// Whether some variant is registered under the tag.
    pub open spec fn spec_has_tag(&self, tag: u8) -> bool {
        find_variant(self.variants@, tag) is Some
    }

    /// Resolves a tag to its registered variant: the first one carrying it,
    /// or nothing when the tag is unknown to this program.
    pub fn resolve(&self, tag: u8) -> (r: Option<&VariantDef>)
        ensures
            match find_variant(self.variants@, tag) {
                Some(v) => r matches Some(rv) && *rv == v,
                None => r is None,
            },
    {
        let mut i: usize = 0;
        while i < self.variants.len()
            invariant
                i <= self.variants@.len(),
                forall|j: int| 0 <= j < i ==> self.variants@[j].tag != tag,
            decreases self.variants@.len() - i,
        {
            if self.variants[i].tag == tag {
                proof {
                    lemma_find_variant_prefix(self.variants@, tag, i as int);
                }
                return Some(&self.variants[i]);
            }
            i += 1;
        }
        proof {
            lemma_find_variant_absent(self.variants@, tag);
        }
        None
    }
}

} // verus!
