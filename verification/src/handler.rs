//! The dispatch handler: looks a decoded record's name up in a per-program
//! table, enriches the record with context fields, and hands it to the store.
//! Unrecognized names are dropped silently, matching the decoder's permissive
//! treatment of unknown tags. The handler is stateless; the store is an
//! injected capability of the caller.

use crate::record::with_value;
use crate::record::TransportValue;
use crate::record::Value;
use crate::record::ValueModel;
use vstd::prelude::*;
use vstd::string::StringExecFns;

verus! {

/// Block, transaction and account context available while one decoded
/// instruction is handled. The account list keeps the order of the
/// instruction's account references: positional roles are looked up by index.
pub struct Context {
    pub block_number: u64,
    pub block_timestamp: u64,
    pub block_hash: String,
    pub signatures: Vec<String>,
    pub program_id: String,
    pub accounts: Vec<String>,
}

/// The store collaborator that persists records, keyed by record name. The
/// handler writes each record at most once and expects nothing back; retry
/// and batching are the store's own concern.
pub trait IndexStore {
    fn save_values(&mut self, name: &String, values: &Vec<(String, Value)>);

    fn flush(&mut self, block_hash: &String, block_number: u64);
}

/// Saving a record hands its name and its ordered fields to the store.
pub trait TransportValueExt {
    fn save<S: IndexStore>(&self, store: &mut S);
}

impl TransportValueExt for TransportValue {
    fn save<S: IndexStore>(&self, store: &mut S) {
        store.save_values(&self.name, &self.values);
    }
}

/// One handled variant: its record name, and whether its enrichment includes
/// the first referenced account.
pub struct HandlerEntry {
    pub name: String,
    pub with_account: bool,
}

/// Whether a dispatch entry carries the given record name and account flag.
pub open spec fn handler_entry_is(e: HandlerEntry, name: Seq<char>, with_account: bool) -> bool {
    e.name@ == name && e.with_account == with_account
}

/// The per-program table of handled record names.
pub struct HandlerTable {
    pub entries: Vec<HandlerEntry>,
}

/// The first entry carrying the name, if any.
pub open spec fn find_entry(es: Seq<HandlerEntry>, name: Seq<char>) -> Option<HandlerEntry>
    decreases es.len(),
{
    if es.len() == 0 {
        None
    } else if es[0].name@ == name {
        Some(es[0])
    } else {
        find_entry(es.drop_first(), name)
    }
}

proof fn lemma_find_entry_prefix(es: Seq<HandlerEntry>, name: Seq<char>, at: int)
    requires
        0 <= at < es.len(),
        es[at].name@ == name,
        forall|j: int| 0 <= j < at ==> es[j].name@ != name,
    ensures
        find_entry(es, name) == Some(es[at]),
    decreases at,
{
    if at > 0 {
        lemma_find_entry_prefix(es.drop_first(), name, at - 1);
    }
}

proof fn lemma_find_entry_absent(es: Seq<HandlerEntry>, name: Seq<char>)
    requires
        forall|j: int| 0 <= j < es.len() ==> es[j].name@ != name,
    ensures
        find_entry(es, name) is None,
    decreases es.len(),
{
    if es.len() > 0 {
        assert(forall|j: int| 0 <= j < es.drop_first().len() ==> es.drop_first()[j].name@ != name);
        lemma_find_entry_absent(es.drop_first(), name);
    }
}

impl HandlerTable {
    /// Looks a record name up: the first entry carrying it, or nothing.
    pub fn lookup(&self, name: &str) -> (r: Option<&HandlerEntry>)
        ensures
            match find_entry(self.entries@, name@) {
                Some(e) => r matches Some(re) && *re == e,
                None => r is None,
            },
    {
        let mut i: usize = 0;
        while i < self.entries.len()
            invariant
                i <= self.entries@.len(),
                forall|j: int| 0 <= j < i ==> self.entries@[j].name@ != name@,
            decreases self.entries@.len() - i,
        {
            if str_equal(self.entries[i].name.as_str(), name) {
                proof {
                    lemma_find_entry_prefix(self.entries@, name@, i as int);
                }
                return Some(&self.entries[i]);
            }
            i += 1;
        }
        proof {
            lemma_find_entry_absent(self.entries@, name@);
        }
        None
    }
}

/// Whether two string slices hold the same characters.
pub fn str_equal(a: &str, b: &str) -> (r: bool)
    ensures
        r == (a@ == b@),
{
    let a_owned: String = a.to_owned();
    let b_owned: String = b.to_owned();
    a_owned == b_owned
}

/// The texts joined with the separator between consecutive parts, from part
/// `i` on.
pub open spec fn joined_from(parts: Seq<Seq<char>>, sep: Seq<char>, i: int) -> Seq<char>
    decreases parts.len() - i,
{
    if i < 0 || i >= parts.len() {
        Seq::empty()
    } else if i == parts.len() - 1 {
        parts[i]
    } else {
        parts[i] + sep + joined_from(parts, sep, i + 1)
    }
}

/// All texts joined with the separator between consecutive parts.
pub open spec fn joined(parts: Seq<Seq<char>>, sep: Seq<char>) -> Seq<char> {
    joined_from(parts, sep, 0)
}

fn append_joined_from(parts: &Vec<String>, sep: &str, i: usize, out: &mut String)
    requires
        i <= parts@.len(),
    ensures
        final(out)@ == old(out)@ + joined_from(parts.deep_view(), sep@, i as int),
    decreases parts@.len() - i,
{
    if i == parts.len() {
        proof {
            assert(old(out)@ + Seq::<char>::empty() =~= old(out)@);
        }
    } else {
        out.append(parts[i].as_str());
        if i + 1 < parts.len() {
            out.append(sep);
            append_joined_from(parts, sep, i + 1, out);
            proof {
                assert(out@ =~= old(out)@ + joined_from(parts.deep_view(), sep@, i as int));
            }
        } else {
            proof {
                assert(out@ =~= old(out)@ + joined_from(parts.deep_view(), sep@, i as int));
            }
        }
    }
}

/// The texts joined into one, with the separator between consecutive parts.
pub fn join_texts(parts: &Vec<String>, sep: &str) -> (r: String)
    ensures
        r@ == joined(parts.deep_view(), sep@),
{
    let mut out = String::new();
    append_joined_from(parts, sep, 0, &mut out);
    proof {
        assert(Seq::<char>::empty() + joined(parts.deep_view(), sep@) =~= joined(
            parts.deep_view(),
            sep@,
        ));
    }
    out
}

/// The account at a position of the ordered account list, or null when the
/// position is out of range. Out-of-range lookups are never an error.
pub open spec fn account_model(accounts: Seq<Seq<char>>, i: int) -> ValueModel {
    if 0 <= i < accounts.len() {
        ValueModel::Text(accounts[i])
    } else {
        ValueModel::Null
    }
}

/// Looks an account up by position, bounds-checked.
pub fn account_value(accounts: &Vec<String>, index: usize) -> (r: Value)
    ensures
        r@ == account_model(accounts.deep_view(), index as int),
{
    if index < accounts.len() {
        Value::Text(accounts[index].clone())
    } else {
        Value::Null
    }
}

/// The record's fields after enrichment: a block timestamp and the canonical
/// transaction identifier (all signatures joined with the fixed delimiter)
/// are set, and, for variants that use it, the first referenced account; the
/// fields already present are never removed or renamed.
pub open spec fn enriched_values(
    values: Seq<(Seq<char>, ValueModel)>,
    ctx: Context,
    with_account: bool,
) -> Seq<(Seq<char>, ValueModel)> {
    let v1 = with_value(values, "block_timestamp"@, ValueModel::U64(ctx.block_timestamp));
    let v2 = with_value(
        v1,
        "tx_hash"@,
        ValueModel::Text(joined(ctx.signatures.deep_view(), ",'"@)),
    );
    if with_account {
        with_value(v2, "account_name"@, account_model(ctx.accounts.deep_view(), 0))
    } else {
        v2
    }
}

/// Dispatches one decoded record: a record whose name the table knows is
/// enriched with the context fields, handed to the store, and returned; a
/// record with an unknown name is dropped silently and nothing is stored.
pub fn dispatch<S: IndexStore>(
    table: &HandlerTable,
    ctx: &Context,
    input: TransportValue,
    store: &mut S,
) -> (r: Option<TransportValue>)
    ensures
        match find_entry(table.entries@, input@.name) {
            Some(e) => r matches Some(out) && out@.name == input@.name && out@.values
                == enriched_values(input@.values, *ctx, e.with_account),
            None => r is None,
        },
{
    let entry = match table.lookup(input.name.as_str()) {
        Some(e) => e,
        None => {
            return None;
        },
    };
    let with_account = entry.with_account;
    let mut tv = input;
    tv.set_value("block_timestamp", Value::U64(ctx.block_timestamp));
    tv.set_value("tx_hash", Value::Text(join_texts(&ctx.signatures, ",'")));
    if with_account {
        tv.set_value("account_name", account_value(&ctx.accounts, 0));
    }
    tv.save(store);
    Some(tv)
}

} // verus!
