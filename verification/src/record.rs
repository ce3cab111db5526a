//! The generic record produced by decoding one instruction: a variant name
//! together with an ordered mapping from field names to dynamically typed
//! values. Insertion order is preserved so that a record keeps a stable shape.

use vstd::prelude::*;

verus! {

/// The value vocabulary every decoded field is coerced into.
#[derive(Clone, Debug, PartialEq)]
pub enum Value {
    U8(u8),
    U16(u16),
    U32(u32),
    U64(u64),
    Bool(bool),
    Text(String),
    TextList(Vec<String>),
    Null,
}

/// Mathematical model of a `Value`: strings become character sequences.
pub ghost enum ValueModel {
    U8(u8),
    U16(u16),
    U32(u32),
    U64(u64),
    Bool(bool),
    Text(Seq<char>),
    TextList(Seq<Seq<char>>),
    Null,
}

impl View for Value {
    type V = ValueModel;

    open spec fn view(&self) -> ValueModel {
        match self {
            Value::U8(x) => ValueModel::U8(*x),
            Value::U16(x) => ValueModel::U16(*x),
            Value::U32(x) => ValueModel::U32(*x),
            Value::U64(x) => ValueModel::U64(*x),
            Value::Bool(x) => ValueModel::Bool(*x),
            Value::Text(s) => ValueModel::Text(s@),
            Value::TextList(v) => ValueModel::TextList(v.deep_view()),
            Value::Null => ValueModel::Null,
        }
    }
}

/// Mathematical model of a record: its name and its ordered field list.
pub ghost struct RecordModel {
    pub name: Seq<char>,
    pub values: Seq<(Seq<char>, ValueModel)>,
}

/// The transport value: one decoded instruction occurrence, named after its
/// variant, carrying the decoded fields in insertion order.
#[derive(Clone, Debug, PartialEq)]
pub struct TransportValue {
    pub name: String,
    pub values: Vec<(String, Value)>,
}

impl View for TransportValue {
    type V = RecordModel;

    open spec fn view(&self) -> RecordModel {
        RecordModel {
            name: self.name@,
            values: Seq::new(self.values@.len(), |i: int| (self.values@[i].0@, self.values@[i].1@)),
        }
    }
}

/// First position of `key` in the field list, or -1 when absent.
pub open spec fn first_key_position(values: Seq<(Seq<char>, ValueModel)>, key: Seq<char>) -> int
    decreases values.len(),
{
    if values.len() == 0 {
        -1
    } else if values[0].0 == key {
        0
    } else {
        let rest = first_key_position(values.drop_first(), key);
        if rest == -1 {
            -1
        } else {
            rest + 1
        }
    }
}

/// The field list after setting `key` to `value`: the first occurrence of the
/// key is replaced in place, a fresh key is appended at the end.
pub open spec fn with_value(
    values: Seq<(Seq<char>, ValueModel)>,
    key: Seq<char>,
    value: ValueModel,
) -> Seq<(Seq<char>, ValueModel)> {
    let at = first_key_position(values, key);
    if at == -1 {
        values.push((key, value))
    } else {
        values.update(at, (key, value))
    }
}

impl TransportValue {
    /// A fresh record for the named variant, with no fields yet.
    pub fn new(name: &str) -> (r: TransportValue)
        ensures
            r@.name == name@,
            r@.values == Seq::<(Seq<char>, ValueModel)>::empty(),
    {
        let r = TransportValue { name: name.to_owned(), values: Vec::new() };
        proof {
            assert(r@.values =~= Seq::<(Seq<char>, ValueModel)>::empty());
        }
        r
    }

    /// Sets a field: replaces the value of the first field with this key, or
    /// appends the key when no field carries it yet. The name and the order of
    /// all other fields are untouched.
    pub fn set_value(&mut self, key: &str, value: Value)
        ensures
            final(self)@.name == old(self)@.name,
            final(self)@.values == with_value(old(self)@.values, key@, value@),
    {
        let ghost vm = value@;
        let ghost target = with_value(old(self)@.values, key@, vm);
        let key_owned: String = key.to_owned();
        let mut i: usize = 0;
        while i < self.values.len()
            invariant
                *self == *old(self),
                key_owned@ == key@,
                value@ == vm,
                target == with_value(old(self)@.values, key@, vm),
                i <= self.values.len(),
                forall|j: int| 0 <= j < i ==> self@.values[j].0 != key@,
            decreases self.values.len() - i,
        {
            if self.values[i].0 == key_owned {
                proof {
                    lemma_first_key_prefix(self@.values, key@, i as int);
                }
                self.values[i] = (key_owned, value);
                proof {
                    assert(self@.values =~= target);
                }
                return ;
            }
            i += 1;
        }
        proof {
            lemma_first_key_absent(self@.values, key@);
        }
        self.values.push((key_owned, value));
        proof {
            assert(self@.values =~= target);
        }
    }
}

/// When every index below `at` misses the key and `at` hits it, `at` is the
/// first position of the key.
proof fn lemma_first_key_prefix(values: Seq<(Seq<char>, ValueModel)>, key: Seq<char>, at: int)
    requires
        0 <= at < values.len(),
        values[at].0 == key,
        forall|j: int| 0 <= j < at ==> values[j].0 != key,
    ensures
        first_key_position(values, key) == at,
    decreases at,
{
    if at > 0 {
        lemma_first_key_prefix(values.drop_first(), key, at - 1);
    }
}

/// When no field carries the key, its first position is -1.
proof fn lemma_first_key_absent(values: Seq<(Seq<char>, ValueModel)>, key: Seq<char>)
    requires
        forall|j: int| 0 <= j < values.len() ==> values[j].0 != key,
    ensures
        first_key_position(values, key) == -1,
    decreases values.len(),
{
    if values.len() > 0 {
        assert(forall|j: int|
            0 <= j < values.drop_first().len() ==> values.drop_first()[j].0 != key);
        lemma_first_key_absent(values.drop_first(), key);
    }
}

} // verus!
