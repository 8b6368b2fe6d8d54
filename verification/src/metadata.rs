//! The metadata record of an item: three fixed texts and an ordered list of
//! key/value fields, of which the auction uses `overbid` and `owner`.

use anchor_lang::prelude::ProgramError;
use anchor_spl::token_2022::spl_token_2022::extension::{
    BaseStateWithExtensions, StateWithExtensions,
};
use anchor_spl::token_2022::spl_token_2022::state::Mint as MintState;
use spl_token_metadata_interface::state::TokenMetadata;
use spl_type_length_value::variable_len_pack::VariableLenPack;
use vstd::prelude::*;
use vstd::string::*;

verus! {

/// The program error of the Solana runtime, carried through unopened.
#[verifier::external_type_specification]
#[verifier::external_body]
pub struct ExProgramError(ProgramError);

/// One key/value field as contracts see it.
pub type FieldView = (Seq<char>, Seq<char>);

/// A metadata record as contracts see it.
pub struct MetadataView {
    pub name: Seq<char>,
    pub symbol: Seq<char>,
    pub uri: Seq<char>,
    pub fields: Seq<FieldView>,
}

/// The metadata record of one item.
#[derive(Clone, Debug, PartialEq, Eq)]
pub struct Metadata {
    pub name: String,
    pub symbol: String,
    pub uri: String,
    pub additional_metadata: Vec<(String, String)>,
}

impl View for Metadata {
    type V = MetadataView;

    open spec fn view(&self) -> MetadataView {
        MetadataView {
            name: self.name@,
            symbol: self.symbol@,
            uri: self.uri@,
            fields: fields_view(self.additional_metadata@),
        }
    }
}

/// The key/value fields of a record, each text taken by its characters.
pub open spec fn fields_view(entries: Seq<(String, String)>) -> Seq<FieldView> {
    Seq::new(entries.len(), |i: int| (entries[i].0@, entries[i].1@))
}

/// Whether no field has the key.
pub open spec fn absent(fields: Seq<FieldView>, key: Seq<char>) -> bool {
    forall|j: int| 0 <= j < fields.len() ==> (#[trigger] fields[j]).0 != key
}

/// Whether the field at `i` is the first one with the key.
pub open spec fn first_at(fields: Seq<FieldView>, key: Seq<char>, i: int) -> bool {
    &&& 0 <= i < fields.len()
    &&& fields[i].0 == key
    &&& absent(fields.subrange(0, i), key)
}

/// The place of the first field with the key, where there is one.
pub open spec fn first_index(fields: Seq<FieldView>, key: Seq<char>) -> int {
    choose|i: int| first_at(fields, key, i)
}

/// The value of the first field with the key, or nothing where no field has it.
pub open spec fn lookup(fields: Seq<FieldView>, key: Seq<char>) -> Option<Seq<char>> {
    if absent(fields, key) {
        None
    } else {
        Some(fields[first_index(fields, key)].1)
    }
}

/// The fields after `key` is set to `value`: the first field with the key
/// takes the value and keeps its place; without such a field a new one is
/// added at the end.
pub open spec fn with_field(fields: Seq<FieldView>, key: Seq<char>, value: Seq<char>) -> Seq<
    FieldView,
> {
    if absent(fields, key) {
        fields.push((key, value))
    } else {
        fields.update(first_index(fields, key), (key, value))
    }
}

/// There is at most one first field with a key.
pub proof fn lemma_first_at_unique(fields: Seq<FieldView>, key: Seq<char>, i: int, j: int)
    requires
        first_at(fields, key, i),
        first_at(fields, key, j),
    ensures
        i == j,
{
    if i < j {
        assert(fields.subrange(0, j)[i] == fields[i]);
    } else if j < i {
        assert(fields.subrange(0, i)[j] == fields[j]);
    }
}

/// A first field at `i` is the one that `first_index` and `lookup` find.
pub proof fn lemma_first_at(fields: Seq<FieldView>, key: Seq<char>, i: int)
    requires
        first_at(fields, key, i),
    ensures
        !absent(fields, key),
        first_index(fields, key) == i,
        lookup(fields, key) == Some(fields[i].1),
{
    lemma_first_at_unique(fields, key, i, first_index(fields, key));
}

/// Among fields of which one has the key, one is the first.
pub proof fn lemma_first_exists(fields: Seq<FieldView>, key: Seq<char>)
    requires
        !absent(fields, key),
    ensures
        first_at(fields, key, first_index(fields, key)),
    decreases fields.len(),
{
    let j = choose|j: int| 0 <= j < fields.len() && (#[trigger] fields[j]).0 == key;
    let front = fields.subrange(0, j);
    if absent(front, key) {
        assert(first_at(fields, key, j));
    } else {
        lemma_first_exists(front, key);
        let i = first_index(front, key);
        assert(front[i] == fields[i]);
        assert(front.subrange(0, i) =~= fields.subrange(0, i));
        assert(first_at(fields, key, i));
    }
}

/// A key that was set is found with the value it was set to.
pub proof fn lemma_lookup_set(fields: Seq<FieldView>, key: Seq<char>, value: Seq<char>)
    ensures
        lookup(with_field(fields, key, value), key) == Some(value),
{
    let after = with_field(fields, key, value);
    if absent(fields, key) {
        let n = fields.len() as int;
        assert(after.subrange(0, n) =~= fields);
        lemma_first_at(after, key, n);
    } else {
        lemma_first_exists(fields, key);
        let i = first_index(fields, key);
        assert(after.subrange(0, i) =~= fields.subrange(0, i));
        lemma_first_at(after, key, i);
    }
}

/// Setting one key leaves what is found under every other key as it was.
pub proof fn lemma_lookup_other(
    fields: Seq<FieldView>,
    key: Seq<char>,
    value: Seq<char>,
    other: Seq<char>,
)
    requires
        other != key,
    ensures
        lookup(with_field(fields, key, value), other) == lookup(fields, other),
{
    let after = with_field(fields, key, value);
    if !absent(fields, key) {
        lemma_first_exists(fields, key);
    }
    if absent(fields, other) {
        assert forall|j: int| 0 <= j < after.len() implies (#[trigger] after[j]).0 != other by {
            if j < fields.len() {
                assert(fields[j].0 != other);
            }
        }
    } else {
        lemma_first_exists(fields, other);
        let i = first_index(fields, other);
        assert(after[i] == fields[i]);
        assert forall|j: int| 0 <= j < i implies (#[trigger] after.subrange(0, i)[j]).0
            != other by {
            assert(fields.subrange(0, i)[j] == fields[j]);
            assert(after.subrange(0, i)[j] == after[j]);
        }
        lemma_first_at(after, other, i);
    }
}

impl Metadata {
    /// A record with its three fixed texts and no field yet.
    pub fn new(name: String, symbol: String, uri: String) -> (r: Metadata)
        ensures
            r@ == (MetadataView {
                name: name@,
                symbol: symbol@,
                uri: uri@,
                fields: Seq::<FieldView>::empty(),
            }),
    {
        let r = Metadata { name, symbol, uri, additional_metadata: Vec::new() };
        assert(r@.fields =~= Seq::<FieldView>::empty());
        r
    }

    /// The value of the first field with the key, if there is one.
    pub fn get(&self, key: &str) -> (r: Option<&String>)
        ensures
            match r {
                Some(v) => lookup(self@.fields, key@) == Some(v@),
                None => lookup(self@.fields, key@) is None,
            },
    {
        let wanted = String::from_str(key);
        let mut i: usize = 0;
        while i < self.additional_metadata.len()
            invariant
                i <= self.additional_metadata@.len(),
                wanted@ == key@,
                absent(self@.fields.subrange(0, i as int), key@),
            decreases self.additional_metadata@.len() - i,
        {
            let entry = &self.additional_metadata[i];
            if entry.0 == wanted {
                proof {
                    lemma_first_at(self@.fields, key@, i as int);
                }
                return Some(&entry.1);
            }
            assert forall|j: int| 0 <= j < i + 1 implies (#[trigger] self@.fields.subrange(
                0,
                i + 1,
            )[j]).0 != key@ by {
                if j < i {
                    assert(self@.fields.subrange(0, i as int)[j] == self@.fields[j]);
                }
            }
            i += 1;
        }
        assert(self@.fields.subrange(0, i as int) =~= self@.fields);
        None
    }

    /// Sets `key` to `value`: in place where a field has the key already, at
    /// the end otherwise. The fixed texts and every other field stay.
    pub fn set(&mut self, key: String, value: String)
        ensures
            final(self)@ == (MetadataView {
                fields: with_field(old(self)@.fields, key@, value@),
                ..old(self)@
            }),
    {
        let ghost before = self@.fields;
        let mut i: usize = 0;
        while i < self.additional_metadata.len()
            invariant
                i <= self.additional_metadata@.len(),
                *self == *old(self),
                before == self@.fields,
                absent(before.subrange(0, i as int), key@),
            decreases self.additional_metadata@.len() - i,
        {
            if self.additional_metadata[i].0 == key {
                proof {
                    lemma_first_at(before, key@, i as int);
                }
                self.additional_metadata.set(i, (key, value));
                assert(self@.fields =~= before.update(i as int, (key@, value@)));
                return ;
            }
            assert forall|j: int| 0 <= j < i + 1 implies (#[trigger] before.subrange(0, i + 1)[j]).0
                != key@ by {
                if j < i {
                    assert(before.subrange(0, i as int)[j] == before[j]);
                }
            }
            i += 1;
        }
        assert(before.subrange(0, i as int) =~= before);
        self.additional_metadata.push((key, value));
        assert(self@.fields =~= before.push((key@, value@)));
    }
}

/// The metadata record that the bytes of an item's account hold, or nothing
/// where the bytes hold none that can be read.
pub uninterp spec fn token_metadata_in(data: Seq<u8>) -> Option<MetadataView>;

/// The number of bytes that a record with these fixed texts and no field
/// takes when packed, or nothing where it cannot be packed.
pub uninterp spec fn packed_len_of(name: Seq<char>, symbol: Seq<char>, uri: Seq<char>) -> Option<
    usize,
>;

/// Calls `StateWithExtensions::<Mint>::unpack` on the bytes and
/// `get_variable_len_extension::<TokenMetadata>` on what it gives, and moves
/// the four texts of the record found into a `Metadata`. Both calls read the
/// bytes only, so the outcome depends on the bytes alone; the contract names
/// it, and says that an error comes exactly where the name gives nothing.
#[verifier::external_body]
fn unpack_token_metadata(data: &[u8]) -> (r: Result<Metadata, ProgramError>)
    ensures
        match r {
            Ok(m) => token_metadata_in(data@) == Some(m@),
            Err(_) => token_metadata_in(data@) is None,
        },
{
    let state = StateWithExtensions::<MintState>::unpack(data)?;
    let found = state.get_variable_len_extension::<TokenMetadata>()?;
    Ok(
        Metadata {
            name: found.name,
            symbol: found.symbol,
            uri: found.uri,
            additional_metadata: found.additional_metadata,
        },
    )
}

/// Calls `VariableLenPack::get_packed_len` on a `TokenMetadata` that holds
/// the three texts, with its other parts as `Default` makes them. The length
/// depends on the texts alone; the contract names it, and says that an error
/// comes exactly where the name gives nothing.
#[verifier::external_body]
fn token_metadata_packed_len(name: &str, symbol: &str, uri: &str) -> (r: Result<
    usize,
    ProgramError,
>)
    ensures
        match r {
            Ok(n) => packed_len_of(name@, symbol@, uri@) == Some(n),
            Err(_) => packed_len_of(name@, symbol@, uri@) is None,
        },
{
    let record = TokenMetadata {
        name: name.to_string(),
        symbol: symbol.to_string(),
        uri: uri.to_string(),
        ..Default::default()
    };
    record.get_packed_len()
}

impl Metadata {
    /// Reads the metadata record out of the bytes of an item's account.
    /// `None` where the bytes hold no record that can be read.
    pub fn unpack(data: &[u8]) -> (r: Option<Metadata>)
        ensures
            match r {
                Some(m) => token_metadata_in(data@) == Some(m@),
                None => token_metadata_in(data@) is None,
            },
    {
        match unpack_token_metadata(data) {
            Ok(m) => Some(m),
            Err(_) => None,
        }
    }

    /// The packed length of a fresh record with these fixed texts. `None`
    /// where such a record cannot be packed.
    pub fn packed_len(name: &str, symbol: &str, uri: &str) -> (r: Option<usize>)
        ensures
            r == packed_len_of(name@, symbol@, uri@),
    {
        match token_metadata_packed_len(name, symbol, uri) {
            Ok(n) => Some(n),
            Err(_) => None,
        }
    }
}

} // verus!
