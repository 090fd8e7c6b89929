//! CBOR values, and the way between them and bytes.
//!
//! [`CborValue`] is what the rest of the library works on, and [`Tree`] is its
//! mathematical model. The encoding itself is the work of `ciborium`: the
//! functions marked `external_body` in this file are the calls into that crate.

use vstd::prelude::*;

use crate::text::text_is;

verus! {

/// The least integer that CBOR writes as an integer.
pub const LEAST_INTEGER: i128 = -0x1_0000_0000_0000_0000;

/// The greatest integer that CBOR writes as an integer.
pub const GREATEST_INTEGER: i128 = 0xffff_ffff_ffff_ffff;

/// How deep arrays and maps may be nested in what `ciborium::from_reader` reads.
pub const NESTING_LIMIT: u32 = 256;

/// What a CBOR value holds.
///
/// A float, a tagged value and whatever else a session never reads is `Other`.
pub enum Tree {
    Integer(int),
    Bytes(Seq<u8>),
    Text(Seq<char>),
    Bool(bool),
    Null,
    Array(Seq<Tree>),
    Mapping(Seq<(Tree, Tree)>),
    Other,
}

impl Tree {
    /// Whether this is a value that a session can write: no part of it is `Other`,
    /// its integers are those that CBOR has a direct form for, and arrays and maps
    /// are nested at most `depth` deep.
    pub open spec fn writable(self, depth: nat) -> bool
        decreases self,
    {
        match self {
            Tree::Integer(i) => LEAST_INTEGER <= i <= GREATEST_INTEGER,
            Tree::Array(items) => depth > 0 && forall|i: int|
                0 <= i < items.len() ==> (#[trigger] items[i]).writable((depth - 1) as nat),
            Tree::Mapping(entries) => depth > 0 && forall|i: int|
                0 <= i < entries.len() ==> (#[trigger] entries[i]).0.writable((depth - 1) as nat)
                    && entries[i].1.writable((depth - 1) as nat),
            Tree::Other => false,
            _ => true,
        }
    }

    /// The value under the text key `key`, where this is a map that has one. Of two
    /// entries under one key the first counts.
    pub open spec fn get(self, key: Seq<char>) -> Option<Tree> {
        match self {
            Tree::Mapping(entries) => lookup(entries, key),
            _ => None,
        }
    }

    /// The text that this is.
    pub open spec fn as_text(self) -> Option<Seq<char>> {
        match self {
            Tree::Text(text) => Some(text),
            _ => None,
        }
    }

    /// The integer that this is, where a `u64` can hold it.
    pub open spec fn as_u64(self) -> Option<u64> {
        match self {
            Tree::Integer(i) => if 0 <= i <= u64::MAX {
                Some(i as u64)
            } else {
                None
            },
            _ => None,
        }
    }

    /// The boolean that this is.
    pub open spec fn as_bool(self) -> Option<bool> {
        match self {
            Tree::Bool(b) => Some(b),
            _ => None,
        }
    }

    /// The text under `key`.
    pub open spec fn get_text(self, key: Seq<char>) -> Option<Seq<char>> {
        match self.get(key) {
            Some(tree) => tree.as_text(),
            None => None,
        }
    }

    /// The `u64` under `key`.
    pub open spec fn get_u64(self, key: Seq<char>) -> Option<u64> {
        match self.get(key) {
            Some(tree) => tree.as_u64(),
            None => None,
        }
    }

    /// The boolean under `key`.
    pub open spec fn get_bool(self, key: Seq<char>) -> Option<bool> {
        match self.get(key) {
            Some(tree) => tree.as_bool(),
            None => None,
        }
    }
}

/// The value of the first entry whose key is the text `key`.
pub open spec fn lookup(entries: Seq<(Tree, Tree)>, key: Seq<char>) -> Option<Tree>
    decreases entries.len(),
{
    if entries.len() == 0 {
        None
    } else if entries[0].0 == Tree::Text(key) {
        Some(entries[0].1)
    } else {
        lookup(entries.drop_first(), key)
    }
}

/// Where an entry is the first under `key`, its value is what stands under `key`.
pub proof fn lemma_lookup_first(entries: Seq<(Tree, Tree)>, key: Seq<char>, i: int)
    requires
        0 <= i < entries.len(),
        entries[i].0 == Tree::Text(key),
        forall|j: int| 0 <= j < i ==> (#[trigger] entries[j]).0 != Tree::Text(key),
    ensures
        lookup(entries, key) == Some(entries[i].1),
    decreases entries.len(),
{
    if i > 0 {
        assert(entries[0].0 != Tree::Text(key));
        lemma_lookup_first(entries.drop_first(), key, i - 1);
    }
}

/// Where no entry is under `key`, nothing stands there.
pub proof fn lemma_lookup_none(entries: Seq<(Tree, Tree)>, key: Seq<char>)
    requires
        forall|j: int| 0 <= j < entries.len() ==> (#[trigger] entries[j]).0 != Tree::Text(key),
    ensures
        lookup(entries, key) == None::<Tree>,
    decreases entries.len(),
{
    if entries.len() > 0 {
        assert(entries[0].0 != Tree::Text(key));
        lemma_lookup_none(entries.drop_first(), key);
    }
}

/// A CBOR value.
#[derive(Debug, PartialEq)]
pub enum CborValue {
    Integer(i128),
    Bytes(Vec<u8>),
    Text(String),
    Bool(bool),
    Null,
    Array(Vec<CborValue>),
    Mapping(Vec<(CborValue, CborValue)>),
    Other,
}

impl CborValue {
    /// What this value holds.
    pub open spec fn tree(self) -> Tree
        decreases self,
    {
        match self {
            CborValue::Integer(i) => Tree::Integer(i as int),
            CborValue::Bytes(b) => Tree::Bytes(b@),
            CborValue::Text(s) => Tree::Text(s@),
            CborValue::Bool(b) => Tree::Bool(b),
            CborValue::Null => Tree::Null,
            CborValue::Array(items) => Tree::Array(
                Seq::new(
                    items@.len(),
                    |i: int|
                        if 0 <= i < items@.len() {
                            items@[i].tree()
                        } else {
                            Tree::Null
                        },
                ),
            ),
            CborValue::Mapping(entries) => Tree::Mapping(
                Seq::new(
                    entries@.len(),
                    |i: int|
                        if 0 <= i < entries@.len() {
                            (entries@[i].0.tree(), entries@[i].1.tree())
                        } else {
                            (Tree::Null, Tree::Null)
                        },
                ),
            ),
            CborValue::Other => Tree::Other,
        }
    }
}

/// What the entries of a map hold.
pub open spec fn entry_trees(entries: Seq<(CborValue, CborValue)>) -> Seq<(Tree, Tree)> {
    Seq::new(entries.len(), |i: int| (entries[i].0.tree(), entries[i].1.tree()))
}

/// A map holds what its entries hold.
pub proof fn lemma_mapping_tree(entries: Vec<(CborValue, CborValue)>)
    ensures
        CborValue::Mapping(entries)@ == Tree::Mapping(entry_trees(entries@)),
{
    assert(CborValue::Mapping(entries)@->Mapping_0 =~= entry_trees(entries@));
}

impl View for CborValue {
    type V = Tree;

    open spec fn view(&self) -> Tree {
        self.tree()
    }
}

impl Clone for CborValue {
    fn clone(&self) -> (res: Self)
        ensures
            res@ == self@,
        decreases self@,
    {
        let ghost tree = self@;
        match self {
            CborValue::Integer(i) => CborValue::Integer(*i),
            CborValue::Bytes(b) => CborValue::Bytes(b.clone()),
            CborValue::Text(s) => CborValue::Text(s.clone()),
            CborValue::Bool(b) => CborValue::Bool(*b),
            CborValue::Null => CborValue::Null,
            CborValue::Array(items) => {
                let mut res: Vec<CborValue> = Vec::new();
                let mut i: usize = 0;
                while i < items.len()
                    invariant
                        i <= items@.len(),
                        res@.len() == i,
                        tree == self@,
                        *self == CborValue::Array(*items),
                        forall|j: int| 0 <= j < i ==> (#[trigger] res@[j])@ == items@[j]@,
                    decreases items@.len() - i,
                {
                    assert(tree->Array_0[i as int] == items@[i as int]@);
                    res.push(items[i].clone());
                    i += 1;
                }
                let res = CborValue::Array(res);
                assert(res@->Array_0 =~= tree->Array_0);
                res
            },
            CborValue::Mapping(entries) => {
                let mut res: Vec<(CborValue, CborValue)> = Vec::new();
                let mut i: usize = 0;
                while i < entries.len()
                    invariant
                        i <= entries@.len(),
                        res@.len() == i,
                        tree == self@,
                        *self == CborValue::Mapping(*entries),
                        forall|j: int|
                            0 <= j < i ==> (#[trigger] res@[j]).0@ == entries@[j].0@
                                && res@[j].1@ == entries@[j].1@,
                    decreases entries@.len() - i,
                {
                    assert(tree->Mapping_0[i as int].0 == entries@[i as int].0@);
                    assert(tree->Mapping_0[i as int].1 == entries@[i as int].1@);
                    res.push((entries[i].0.clone(), entries[i].1.clone()));
                    i += 1;
                }
                let res = CborValue::Mapping(res);
                assert(res@->Mapping_0 =~= tree->Mapping_0);
                res
            },
            CborValue::Other => CborValue::Other,
        }
    }
}

/// `ciborium::Value`, a CBOR value at any depth.
#[verifier::external_type_specification]
#[verifier::external_body]
pub struct ExCiboriumValue(ciborium::Value);

/// What a `ciborium::Value` holds: the values that it is made of, at every depth.
pub uninterp spec fn cbor_tree(value: ciborium::Value) -> Tree;

/// What `ciborium::from_reader` reads from `bytes`: the value at their start, or
/// `None` where it reports an error.
pub uninterp spec fn cbor_decoded(bytes: Seq<u8>) -> Option<Tree>;

/// What `ciborium::into_writer` writes for a value that holds `tree`.
pub uninterp spec fn cbor_encoded(tree: Tree) -> Seq<u8>;

/// One layer of a `ciborium::Value`.
enum Layer<'a> {
    Integer(i128),
    Bytes(&'a Vec<u8>),
    Text(&'a String),
    Bool(bool),
    Null,
    Array(&'a Vec<ciborium::Value>),
    Mapping(&'a Vec<(ciborium::Value, ciborium::Value)>),
    Other,
}

impl<'a> Layer<'a> {
    /// What the value holds whose outermost layer this is.
    spec fn tree(self) -> Tree {
        match self {
            Layer::Integer(i) => Tree::Integer(i as int),
            Layer::Bytes(b) => Tree::Bytes(b@),
            Layer::Text(s) => Tree::Text(s@),
            Layer::Bool(b) => Tree::Bool(b),
            Layer::Null => Tree::Null,
            Layer::Array(items) => Tree::Array(
                Seq::new(items@.len(), |i: int| cbor_tree(items@[i])),
            ),
            Layer::Mapping(entries) => Tree::Mapping(
                Seq::new(
                    entries@.len(),
                    |i: int| (cbor_tree(entries@[i].0), cbor_tree(entries@[i].1)),
                ),
            ),
            Layer::Other => Tree::Other,
        }
    }
}

/// `ciborium::from_reader`, reading a `ciborium::Value` from a slice. What it reads
/// depends on the bytes alone, and so does whether it reports an error; which error it
/// reports is left unsaid. Bytes behind the value are not looked at.
#[verifier::external_body]
fn ciborium_decode(bytes: &[u8]) -> (res: Option<ciborium::Value>)
    ensures
        cbor_decoded(bytes@) == match res {
            Some(value) => Some(cbor_tree(value)),
            None => None,
        },
{
    ciborium::from_reader(bytes).ok()
}

/// The variants of `ciborium::Value`, told apart. A value holds what its variant says:
/// an integer, bytes, a text, a boolean, nothing, other values in their order, or pairs
/// of values in their order. Floats and tagged values count as `Other`.
#[verifier::external_body]
fn ciborium_layer(value: &ciborium::Value) -> (layer: Layer<'_>)
    ensures
        layer.tree() == cbor_tree(*value),
{
    match value {
        ciborium::Value::Integer(i) => Layer::Integer(i128::from(*i)),
        ciborium::Value::Bytes(b) => Layer::Bytes(b),
        ciborium::Value::Text(s) => Layer::Text(s),
        ciborium::Value::Bool(b) => Layer::Bool(*b),
        ciborium::Value::Null => Layer::Null,
        ciborium::Value::Array(items) => Layer::Array(items),
        ciborium::Value::Map(entries) => Layer::Mapping(entries),
        _ => Layer::Other,
    }
}

/// A layer holds what its variant says.
proof fn lemma_layer_holds_its_parts(layer: Layer<'_>)
    ensures
        match layer {
            Layer::Integer(i) => layer.tree() == Tree::Integer(i as int),
            Layer::Bytes(bytes) => layer.tree() == Tree::Bytes(bytes@),
            Layer::Text(text) => layer.tree() == Tree::Text(text@),
            Layer::Bool(b) => layer.tree() == Tree::Bool(b),
            Layer::Null => layer.tree() == Tree::Null,
            Layer::Array(items) => {
                &&& layer.tree() matches Tree::Array(trees)
                &&& trees.len() == items@.len()
                &&& forall|i: int|
                    0 <= i < items@.len() ==> (#[trigger] trees[i]) == cbor_tree(items@[i])
            },
            Layer::Mapping(entries) => {
                &&& layer.tree() matches Tree::Mapping(trees)
                &&& trees.len() == entries@.len()
                &&& forall|i: int|
                    0 <= i < entries@.len() ==> (#[trigger] trees[i]).0 == cbor_tree(entries@[i].0)
                        && trees[i].1 == cbor_tree(entries@[i].1)
            },
            Layer::Other => layer.tree() == Tree::Other,
        },
{
}

/// The value that holds what `value` holds.
fn value_from_ciborium(value: &ciborium::Value) -> (res: CborValue)
    ensures
        res@ == cbor_tree(*value),
    decreases cbor_tree(*value),
{
    let layer = ciborium_layer(value);
    proof {
        lemma_layer_holds_its_parts(layer);
    }
    match layer {
        Layer::Integer(i) => CborValue::Integer(i),
        Layer::Bytes(b) => CborValue::Bytes(b.clone()),
        Layer::Text(s) => CborValue::Text(s.clone()),
        Layer::Bool(b) => CborValue::Bool(b),
        Layer::Null => CborValue::Null,
        Layer::Array(items) => {
            let mut res: Vec<CborValue> = Vec::new();
            let ghost tree = cbor_tree(*value);
            let mut i: usize = 0;
            while i < items.len()
                invariant
                    i <= items@.len(),
                    res@.len() == i,
                    tree == cbor_tree(*value),
                    tree == Layer::Array(items).tree(),
                    forall|j: int| 0 <= j < i ==> (#[trigger] res@[j])@ == cbor_tree(items@[j]),
                decreases items@.len() - i,
            {
                assert(tree->Array_0[i as int] == cbor_tree(items@[i as int]));
                res.push(value_from_ciborium(&items[i]));
                i += 1;
            }
            let res = CborValue::Array(res);
            assert(res@->Array_0 =~= tree->Array_0);
            res
        },
        Layer::Mapping(entries) => {
            let mut res: Vec<(CborValue, CborValue)> = Vec::new();
            let ghost tree = cbor_tree(*value);
            let mut i: usize = 0;
            while i < entries.len()
                invariant
                    i <= entries@.len(),
                    res@.len() == i,
                    tree == cbor_tree(*value),
                    tree == Layer::Mapping(entries).tree(),
                    forall|j: int|
                        0 <= j < i ==> (#[trigger] res@[j]).0@ == cbor_tree(entries@[j].0)
                            && res@[j].1@ == cbor_tree(entries@[j].1),
                decreases entries@.len() - i,
            {
                assert(tree->Mapping_0[i as int].0 == cbor_tree(entries@[i as int].0));
                assert(tree->Mapping_0[i as int].1 == cbor_tree(entries@[i as int].1));
                res.push((value_from_ciborium(&entries[i].0), value_from_ciborium(&entries[i].1)));
                i += 1;
            }
            let res = CborValue::Mapping(res);
            assert(res@->Mapping_0 =~= tree->Mapping_0);
            res
        },
        Layer::Other => CborValue::Other,
    }
}

/// Reads the CBOR value at the start of `bytes`; `None` where there is none.
pub fn cbor_decode(bytes: &[u8]) -> (res: Option<CborValue>)
    ensures
        cbor_decoded(bytes@) == match res {
            Some(value) => Some(value@),
            None => None,
        },
{
    match ciborium_decode(bytes) {
        Some(value) => Some(value_from_ciborium(&value)),
        None => None,
    }
}

/// `ciborium::Value::from` for an `i128`. An integer that fits into 64 bits and a sign
/// becomes an integer; any other becomes a tagged value.
#[verifier::external_body]
fn ciborium_integer(i: i128) -> (res: ciborium::Value)
    ensures
        cbor_tree(res) == if LEAST_INTEGER <= i <= GREATEST_INTEGER {
            Tree::Integer(i as int)
        } else {
            Tree::Other
        },
{
    ciborium::Value::from(i)
}

/// The variant `ciborium::Value::Bytes`, which holds the bytes that it is made from.
#[verifier::external_body]
fn ciborium_bytes(bytes: Vec<u8>) -> (res: ciborium::Value)
    ensures
        cbor_tree(res) == Tree::Bytes(bytes@),
{
    ciborium::Value::Bytes(bytes)
}

/// The variant `ciborium::Value::Text`, which holds the text that it is made from.
#[verifier::external_body]
fn ciborium_text(text: String) -> (res: ciborium::Value)
    ensures
        cbor_tree(res) == Tree::Text(text@),
{
    ciborium::Value::Text(text)
}

/// The variant `ciborium::Value::Bool`, which holds the boolean that it is made from.
#[verifier::external_body]
fn ciborium_bool(b: bool) -> (res: ciborium::Value)
    ensures
        cbor_tree(res) == Tree::Bool(b),
{
    ciborium::Value::Bool(b)
}

/// The variant `ciborium::Value::Null`, which holds nothing.
#[verifier::external_body]
fn ciborium_null() -> (res: ciborium::Value)
    ensures
        cbor_tree(res) == Tree::Null,
{
    ciborium::Value::Null
}

/// The variant `ciborium::Value::Array`, which holds the values that it is made from, in
/// their order.
#[verifier::external_body]
fn ciborium_array(items: Vec<ciborium::Value>) -> (res: ciborium::Value)
    ensures
        cbor_tree(res) == Tree::Array(Seq::new(items@.len(), |i: int| cbor_tree(items@[i]))),
{
    ciborium::Value::Array(items)
}

/// The variant `ciborium::Value::Map`, which holds the pairs that it is made from, in
/// their order.
#[verifier::external_body]
fn ciborium_map(entries: Vec<(ciborium::Value, ciborium::Value)>) -> (res: ciborium::Value)
    ensures
        cbor_tree(res) == Tree::Mapping(
            Seq::new(
                entries@.len(),
                |i: int| (cbor_tree(entries@[i].0), cbor_tree(entries@[i].1)),
            ),
        ),
{
    ciborium::Value::Map(entries)
}

/// `ciborium::into_writer`, writing a `ciborium::Value` into a vector, which takes all
/// that is written. What it writes depends on what the value holds alone. What it writes
/// for a value without floats and tags `ciborium::from_reader` reads back, down to the
/// depth at which that gives up. Of other values nothing is said.
#[verifier::external_body]
fn ciborium_encode(value: &ciborium::Value) -> (bytes: Vec<u8>)
    requires
        cbor_tree(*value).writable(NESTING_LIMIT as nat),
    ensures
        bytes@ == cbor_encoded(cbor_tree(*value)),
        cbor_decoded(bytes@) == Some(cbor_tree(*value)),
{
    let mut bytes = Vec::new();
    ciborium::into_writer(value, &mut bytes).expect("a vector takes all that is written");
    bytes
}

/// The `ciborium::Value` that holds what `value` holds.
fn value_to_ciborium(value: &CborValue, Ghost(depth): Ghost<nat>) -> (res: ciborium::Value)
    requires
        value@.writable(depth),
    ensures
        cbor_tree(res) == value@,
    decreases value@,
{
    let ghost tree = value@;
    match value {
        CborValue::Integer(i) => ciborium_integer(*i),
        CborValue::Bytes(b) => ciborium_bytes(b.clone()),
        CborValue::Text(s) => ciborium_text(s.clone()),
        CborValue::Bool(b) => ciborium_bool(*b),
        CborValue::Array(items) => {
            let mut res: Vec<ciborium::Value> = Vec::new();
            let mut i: usize = 0;
            while i < items.len()
                invariant
                    i <= items@.len(),
                    res@.len() == i,
                    tree == value@,
                    *value == CborValue::Array(*items),
                    tree.writable(depth),
                    forall|j: int| 0 <= j < i ==> cbor_tree(#[trigger] res@[j]) == items@[j]@,
                decreases items@.len() - i,
            {
                assert(tree->Array_0[i as int] == items@[i as int]@);
                res.push(value_to_ciborium(&items[i], Ghost((depth - 1) as nat)));
                i += 1;
            }
            let res = ciborium_array(res);
            assert(cbor_tree(res)->Array_0 =~= tree->Array_0);
            res
        },
        CborValue::Mapping(entries) => {
            let mut res: Vec<(ciborium::Value, ciborium::Value)> = Vec::new();
            let mut i: usize = 0;
            while i < entries.len()
                invariant
                    i <= entries@.len(),
                    res@.len() == i,
                    tree == value@,
                    *value == CborValue::Mapping(*entries),
                    tree.writable(depth),
                    forall|j: int|
                        0 <= j < i ==> cbor_tree((#[trigger] res@[j]).0) == entries@[j].0@
                            && cbor_tree(res@[j].1) == entries@[j].1@,
                decreases entries@.len() - i,
            {
                assert(tree->Mapping_0[i as int].0 == entries@[i as int].0@);
                assert(tree->Mapping_0[i as int].1 == entries@[i as int].1@);
                let key = value_to_ciborium(&entries[i].0, Ghost((depth - 1) as nat));
                let val = value_to_ciborium(&entries[i].1, Ghost((depth - 1) as nat));
                res.push((key, val));
                i += 1;
            }
            let res = ciborium_map(res);
            assert(cbor_tree(res)->Mapping_0 =~= tree->Mapping_0);
            res
        },
        CborValue::Null | CborValue::Other => ciborium_null(),
    }
}

/// Writes `value` as CBOR. What is written reads back as `value`.
pub fn cbor_encode(value: &CborValue) -> (bytes: Vec<u8>)
    requires
        value@.writable(NESTING_LIMIT as nat),
    ensures
        bytes@ == cbor_encoded(value@),
        cbor_decoded(bytes@) == Some(value@),
{
    ciborium_encode(&value_to_ciborium(value, Ghost(NESTING_LIMIT as nat)))
}

/// The value under the text key `key` of a map; `None` where there is none, and
/// where `value` is no map.
pub fn map_get<'a>(value: &'a CborValue, key: &str) -> (res: Option<&'a CborValue>)
    ensures
        value@.get(key@) == match res {
            Some(found) => Some(found@),
            None => None,
        },
{
    match value {
        CborValue::Mapping(entries) => {
            let ghost all = value@->Mapping_0;
            assert(all.skip(0) =~= all);
            let mut i: usize = 0;
            while i < entries.len()
                invariant
                    i <= entries@.len(),
                    *value == CborValue::Mapping(*entries),
                    value@ == Tree::Mapping(all),
                    lookup(all, key@) == lookup(all.skip(i as int), key@),
                decreases entries@.len() - i,
            {
                assert(all[i as int] == (entries@[i as int].0@, entries@[i as int].1@));
                assert(all.skip(i as int)[0] == all[i as int]);
                assert(all.skip(i as int).drop_first() =~= all.skip(i + 1));
                if let CborValue::Text(text) = &entries[i].0 {
                    if text_is(text, key) {
                        return Some(&entries[i].1);
                    }
                }
                i += 1;
            }
            None
        },
        _ => None,
    }
}

/// The text that `value` is.
pub fn as_text(value: &CborValue) -> (res: Option<&String>)
    ensures
        value@.as_text() == match res {
            Some(text) => Some(text@),
            None => None,
        },
{
    match value {
        CborValue::Text(text) => Some(text),
        _ => None,
    }
}

/// The integer that `value` is, where a `u64` can hold it.
pub fn as_u64(value: &CborValue) -> (res: Option<u64>)
    ensures
        res == value@.as_u64(),
{
    match value {
        CborValue::Integer(i) => {
            if 0 <= *i && *i <= GREATEST_INTEGER {
                Some(*i as u64)
            } else {
                None
            }
        },
        _ => None,
    }
}

/// The boolean that `value` is.
pub fn as_bool(value: &CborValue) -> (res: Option<bool>)
    ensures
        res == value@.as_bool(),
{
    match value {
        CborValue::Bool(b) => Some(*b),
        _ => None,
    }
}

/// The text under `key`.
pub fn get_text<'a>(value: &'a CborValue, key: &str) -> (res: Option<&'a String>)
    ensures
        value@.get_text(key@) == match res {
            Some(text) => Some(text@),
            None => None,
        },
{
    match map_get(value, key) {
        Some(found) => as_text(found),
        None => None,
    }
}

/// The `u64` under `key`.
pub fn get_u64(value: &CborValue, key: &str) -> (res: Option<u64>)
    ensures
        res == value@.get_u64(key@),
{
    match map_get(value, key) {
        Some(found) => as_u64(found),
        None => None,
    }
}

/// The boolean under `key`.
pub fn get_bool(value: &CborValue, key: &str) -> (res: Option<bool>)
    ensures
        res == value@.get_bool(key@),
{
    match map_get(value, key) {
        Some(found) => as_bool(found),
        None => None,
    }
}

/// A value holds what its variant says: the same number, bytes, text or boolean, and as
/// many values as it has parts, each holding what that part holds.
pub proof fn law_value_holds_its_parts(value: CborValue)
    ensures
        match value {
            CborValue::Integer(i) => value@ == Tree::Integer(i as int),
            CborValue::Bytes(bytes) => value@ == Tree::Bytes(bytes@),
            CborValue::Text(text) => value@ == Tree::Text(text@),
            CborValue::Bool(b) => value@ == Tree::Bool(b),
            CborValue::Null => value@ == Tree::Null,
            CborValue::Array(items) => {
                &&& value@ matches Tree::Array(trees)
                &&& trees.len() == items@.len()
                &&& forall|i: int| 0 <= i < items@.len() ==> (#[trigger] trees[i]) == items@[i]@
            },
            CborValue::Mapping(entries) => {
                &&& value@ matches Tree::Mapping(trees)
                &&& trees.len() == entries@.len()
                &&& forall|i: int|
                    0 <= i < entries@.len() ==> (#[trigger] trees[i]).0 == entries@[i].0@
                        && trees[i].1 == entries@[i].1@
            },
            CborValue::Other => value@ == Tree::Other,
        },
{
}

/// What stands under a key of a map is the value of the first entry whose key is that text.
pub proof fn law_first_entry_counts(entries: Seq<(Tree, Tree)>, key: Seq<char>, i: int)
    requires
        0 <= i < entries.len(),
        entries[i].0 == Tree::Text(key),
        forall|j: int| 0 <= j < i ==> (#[trigger] entries[j]).0 != Tree::Text(key),
    ensures
        Tree::Mapping(entries).get(key) == Some(entries[i].1),
{
    lemma_lookup_first(entries, key, i);
}

/// Nothing stands under a key where no entry has that text as its key, and nothing stands
/// in what is no map.
pub proof fn law_no_entry(tree: Tree, key: Seq<char>)
    requires
        tree matches Tree::Mapping(entries) ==> forall|j: int|
            0 <= j < entries.len() ==> (#[trigger] entries[j]).0 != Tree::Text(key),
    ensures
        tree.get(key) is None,
{
    if let Tree::Mapping(entries) = tree {
        lemma_lookup_none(entries, key);
    }
}

/// What stands under a key is a text, a boolean or a number of 64 bits where it is that
/// very text, boolean or number, and in no other case.
pub proof fn law_entry_of_a_kind(tree: Tree, key: Seq<char>)
    ensures
        tree.get_text(key) == match tree.get(key) {
            Some(Tree::Text(text)) => Some(text),
            _ => None,
        },
        tree.get_bool(key) == match tree.get(key) {
            Some(Tree::Bool(b)) => Some(b),
            _ => None,
        },
        tree.get_u64(key) is Some <==> (tree.get(key) matches Some(Tree::Integer(n)) && 0 <= n
            <= 0xffff_ffff_ffff_ffff),
        tree.get_u64(key) matches Some(n) ==> tree.get(key) == Some(Tree::Integer(n as int)),
{
}

/// A value is a text, a boolean or a number of 64 bits where it is that very one, and in
/// no other case.
pub proof fn law_value_of_a_kind(tree: Tree)
    ensures
        tree.as_text() == match tree {
            Tree::Text(text) => Some(text),
            _ => None,
        },
        tree.as_bool() == match tree {
            Tree::Bool(b) => Some(b),
            _ => None,
        },
        tree.as_u64() is Some <==> (tree matches Tree::Integer(n) && 0 <= n
            <= 0xffff_ffff_ffff_ffff),
        tree.as_u64() matches Some(n) ==> tree == Tree::Integer(n as int),
{
}

/// Texts, bytes, booleans and nothing can be written, and so can the integers of 64 bits and
/// a sign; an array or a map where its parts can, one level deeper.
pub proof fn law_writable(tree: Tree, depth: nat)
    ensures
        tree is Text || tree is Bytes || tree is Bool || tree is Null ==> tree.writable(depth),
        tree matches Tree::Integer(n) ==> (tree.writable(depth) <==> -0x1_0000_0000_0000_0000 <= n
            < 0x1_0000_0000_0000_0000),
        tree matches Tree::Array(items) ==> (tree.writable(depth + 1) <==> forall|i: int|
            0 <= i < items.len() ==> (#[trigger] items[i]).writable(depth)),
        tree matches Tree::Mapping(entries) ==> (tree.writable(depth + 1) <==> forall|i: int|
            0 <= i < entries.len() ==> (#[trigger] entries[i]).0.writable(depth)
                && entries[i].1.writable(depth)),
        tree is Other ==> !tree.writable(depth),
        tree is Array || tree is Mapping ==> !tree.writable(0),
{
}

} // verus!
