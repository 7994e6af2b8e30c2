//! JSON documents. `Json` is the library's own tree of plain values, `JsonTree`
//! its mathematical model; reading and writing the text is the work of the
//! `serde_json` crate.
use vstd::prelude::*;

use crate::text::trimmed;

verus! {

/// A JSON document as a mathematical value. An integer is kept exactly; a
/// number with a fraction or an exponent, or one outside the range of `i64` and
/// `u64`, is only known to be a number. An object is a finite map: its members
/// have no order.
pub enum JsonTree {
    Null,
    Bool(bool),
    Int(int),
    Real,
    Text(Seq<char>),
    Array(Seq<JsonTree>),
    Object(Map<Seq<char>, JsonTree>),
}

impl JsonTree {
    /// The member `key`, where this is an object that has it.
    pub open spec fn get(self, key: Seq<char>) -> Option<JsonTree> {
        match self {
            JsonTree::Object(members) => if members.dom().contains(key) {
                Some(members[key])
            } else {
                None
            },
            _ => None,
        }
    }

    /// The characters, where this is a string.
    pub open spec fn text(self) -> Option<Seq<char>> {
        match self {
            JsonTree::Text(text) => Some(text),
            _ => None,
        }
    }

    /// The number, where this is an integer in the range of `u64`.
    pub open spec fn unsigned(self) -> Option<u64> {
        match self {
            JsonTree::Int(n) => if 0 <= n <= u64::MAX {
                Some(n as u64)
            } else {
                None
            },
            _ => None,
        }
    }

    /// The number, where this is an integer in the range of `i64`.
    pub open spec fn signed(self) -> Option<i64> {
        match self {
            JsonTree::Int(n) => if i64::MIN <= n <= i64::MAX {
                Some(n as i64)
            } else {
                None
            },
            _ => None,
        }
    }

    /// The items, where this is an array.
    pub open spec fn items(self) -> Option<Seq<JsonTree>> {
        match self {
            JsonTree::Array(items) => Some(items),
            _ => None,
        }
    }

    /// The characters of the member `key`, where this is an object and that
    /// member is a string.
    pub open spec fn get_text(self, key: Seq<char>) -> Option<Seq<char>> {
        match self.get(key) {
            Some(member) => member.text(),
            None => None,
        }
    }

    /// Arrays and objects are nested at most `levels` deep, and every number in
    /// the document is an integer.
    pub open spec fn fits(self, levels: nat) -> bool
        decreases levels,
    {
        match self {
            JsonTree::Real => false,
            JsonTree::Array(items) => levels > 0 && forall|i: int|
                0 <= i < items.len() ==> (#[trigger] items[i]).fits((levels - 1) as nat),
            JsonTree::Object(members) => levels > 0 && forall|key: Seq<char>|
                members.dom().contains(key) ==> (#[trigger] members[key]).fits((levels - 1) as nat),
            _ => true,
        }
    }
}

/// A JSON document. Of members with the same name the last one counts.
pub enum Json {
    Null,
    Bool(bool),
    Unsigned(u64),
    Negative(i64),
    Real,
    Text(String),
    Array(Vec<Json>),
    Object(Vec<(String, Json)>),
}

/// The model of a document.
pub open spec fn tree_of(json: Json) -> JsonTree
    decreases json,
{
    match json {
        Json::Null => JsonTree::Null,
        Json::Bool(b) => JsonTree::Bool(b),
        Json::Unsigned(n) => JsonTree::Int(n as int),
        Json::Negative(n) => JsonTree::Int(n as int),
        Json::Real => JsonTree::Real,
        Json::Text(text) => JsonTree::Text(text@),
        Json::Array(items) => JsonTree::Array(item_trees(items@)),
        Json::Object(members) => JsonTree::Object(member_trees(members@)),
    }
}

/// The models of the items of an array.
pub open spec fn item_trees(items: Seq<Json>) -> Seq<JsonTree>
    decreases items,
{
    Seq::new(
        items.len(),
        |i: int|
            if 0 <= i < items.len() {
                tree_of(items[i])
            } else {
                JsonTree::Null
            },
    )
}

/// The map that a list of members stands for: a later member replaces an
/// earlier one of the same name.
pub open spec fn member_trees(members: Seq<(String, Json)>) -> Map<Seq<char>, JsonTree>
    decreases members,
{
    if members.len() == 0 {
        Map::empty()
    } else {
        member_trees(members.drop_last()).insert(members.last().0@, tree_of(members.last().1))
    }
}

impl View for Json {
    type V = JsonTree;

    open spec fn view(&self) -> JsonTree {
        tree_of(*self)
    }
}

/// The model of a document that may be missing.
pub open spec fn found(json: Option<&Json>) -> Option<JsonTree> {
    match json {
        Some(json) => Some(json@),
        None => None,
    }
}

/// The characters of a text that may be missing.
pub open spec fn found_text(text: Option<&str>) -> Option<Seq<char>> {
    match text {
        Some(text) => Some(text@),
        None => None,
    }
}

impl Json {
    /// The member `key`, where this is an object that has it.
    pub fn get(&self, key: &str) -> (member: Option<&Json>)
        ensures
            found(member) == self@.get(key@),
    {
        match self {
            Json::Object(members) => {
                let mut n: usize = members.len();
                assert(members@.take(n as int) =~= members@);
                while n > 0
                    invariant
                        n <= members@.len(),
                        self@ == JsonTree::Object(member_trees(members@)),
                        self@.get(key@) == JsonTree::Object(
                            member_trees(members@.take(n as int)),
                        ).get(key@),
                    decreases n,
                {
                    assert(members@.take(n as int).drop_last() =~= members@.take(n - 1));
                    if members[n - 1].0.as_str().eq(key) {
                        return Some(&members[n - 1].1);
                    }
                    n = n - 1;
                }
                None
            },
            _ => None,
        }
    }

    /// The characters, where this is a string.
    pub fn as_str(&self) -> (text: Option<&str>)
        ensures
            found_text(text) == self@.text(),
    {
        match self {
            Json::Text(text) => Some(text.as_str()),
            _ => None,
        }
    }

    /// The characters of the member `key`, where this is an object and that
    /// member is a string.
    pub fn get_str(&self, key: &str) -> (text: Option<&str>)
        ensures
            found_text(text) == self@.get_text(key@),
    {
        match self.get(key) {
            Some(member) => member.as_str(),
            None => None,
        }
    }

    /// The number, where this is an integer in the range of `u64`.
    pub fn as_u64(&self) -> (n: Option<u64>)
        ensures
            n == self@.unsigned(),
    {
        match self {
            Json::Unsigned(n) => Some(*n),
            Json::Negative(n) => if *n >= 0 {
                Some(*n as u64)
            } else {
                None
            },
            _ => None,
        }
    }

    /// The number, where this is an integer in the range of `i64`.
    pub fn as_i64(&self) -> (n: Option<i64>)
        ensures
            n == self@.signed(),
    {
        match self {
            Json::Unsigned(n) => if *n <= i64::MAX as u64 {
                Some(*n as i64)
            } else {
                None
            },
            Json::Negative(n) => Some(*n),
            _ => None,
        }
    }

    /// The items, where this is an array.
    pub fn as_array(&self) -> (items: Option<&Vec<Json>>)
        ensures
            self@.items() == match items {
                Some(items) => Some(item_trees(items@)),
                None => None,
            },
    {
        match self {
            Json::Array(items) => Some(items),
            _ => None,
        }
    }

    /// A string.
    pub fn string(text: &str) -> (json: Json)
        ensures
            json@ == JsonTree::Text(text@),
    {
        Json::Text(text.to_owned())
    }

    /// An object without members.
    pub fn object() -> (json: Json)
        ensures
            json@ == JsonTree::Object(Map::empty()),
            forall|levels: nat| levels > 0 ==> #[trigger] json@.fits(levels),
    {
        proof {
            assert forall|levels: nat| levels > 0 implies #[trigger] JsonTree::Object(
                Map::empty(),
            ).fits(levels) by {
                lemma_object_fits(Map::empty(), levels);
            }
        }
        Json::Object(Vec::new())
    }

    /// An array of the given documents.
    pub fn array(items: Vec<Json>) -> (json: Json)
        ensures
            json@ == JsonTree::Array(item_trees(items@)),
            forall|levels: nat|
                levels > 0 && (forall|i: int|
                    0 <= i < items@.len() ==> (#[trigger] items@[i])@.fits((levels - 1) as nat))
                    ==> #[trigger] json@.fits(levels),
    {
        proof {
            assert forall|levels: nat|
                levels > 0 && (forall|i: int|
                    0 <= i < items@.len() ==> (#[trigger] items@[i])@.fits(
                        (levels - 1) as nat,
                    )) implies #[trigger] JsonTree::Array(item_trees(items@)).fits(levels) by {
                assert forall|i: int| 0 <= i < items@.len() implies (#[trigger] item_trees(
                    items@,
                )[i]).fits((levels - 1) as nat) by {
                    assert(items@[i]@.fits((levels - 1) as nat));
                }
                lemma_array_fits(item_trees(items@), levels);
            }
        }
        Json::Array(items)
    }

    /// The object with the member `key` set to `value`; anything else stays as
    /// it is.
    pub fn with(self, key: &str, value: Json) -> (json: Json)
        ensures
            json@ == match self@ {
                JsonTree::Object(members) => JsonTree::Object(members.insert(key@, value@)),
                other => other,
            },
            forall|levels: nat|
                levels > 0 && self@.fits(levels) && value@.fits((levels - 1) as nat)
                    ==> #[trigger] json@.fits(levels),
    {
        proof {
            if let JsonTree::Object(before) = self@ {
                assert forall|levels: nat|
                    levels > 0 && self@.fits(levels) && value@.fits(
                        (levels - 1) as nat,
                    ) implies #[trigger] JsonTree::Object(before.insert(key@, value@)).fits(
                    levels,
                ) by {
                    lemma_insert_fits(before, key@, value@, levels);
                }
            }
        }
        match self {
            Json::Object(members) => {
                let mut members = members;
                let ghost before = members@;
                members.push((key.to_owned(), value));
                assert(members@.drop_last() =~= before);
                Json::Object(members)
            },
            other => other,
        }
    }

    /// A copy of the document.
    pub fn copy(&self) -> (json: Json)
        ensures
            json@ == self@,
        decreases self,
    {
        match self {
            Json::Null => Json::Null,
            Json::Bool(b) => Json::Bool(*b),
            Json::Unsigned(n) => Json::Unsigned(*n),
            Json::Negative(n) => Json::Negative(*n),
            Json::Real => Json::Real,
            Json::Text(text) => Json::Text(text.clone()),
            Json::Array(items) => {
                let mut copies: Vec<Json> = Vec::new();
                for i in 0..items.len()
                    invariant
                        copies@.len() == i,
                        *self == Json::Array(*items),
                        forall|k: int|
                            0 <= k < i ==> tree_of(#[trigger] copies@[k]) == tree_of(items@[k]),
                {
                    assert(decreases_to!(*self => self->Array_0));
                    assert(decreases_to!(items => items@));
                    assert(decreases_to!(items@ => items@[i as int]));
                    copies.push(items[i].copy());
                }
                assert(item_trees(copies@) =~= item_trees(items@));
                Json::Array(copies)
            },
            Json::Object(members) => {
                let mut copies: Vec<(String, Json)> = Vec::new();
                assert(members@.take(0) =~= Seq::empty());
                for i in 0..members.len()
                    invariant
                        *self == Json::Object(*members),
                        member_trees(copies@) == member_trees(members@.take(i as int)),
                {
                    assert(decreases_to!(*self => self->Object_0));
                    assert(decreases_to!(members => members@));
                    assert(decreases_to!(members@ => members@[i as int]));
                    assert(decreases_to!(members@[i as int] => members@[i as int].1));
                    let ghost before = copies@;
                    copies.push((members[i].0.clone(), members[i].1.copy()));
                    assert(copies@.drop_last() =~= before);
                    assert(members@.take(i + 1).drop_last() =~= members@.take(i as int));
                }
                assert(members@.take(members@.len() as int) =~= members@);
                Json::Object(copies)
            },
        }
    }
}

/// A JSON value of the `serde_json` crate.
#[verifier::external_type_specification]
#[verifier::external_body]
pub struct ExValue(serde_json::Value);

/// The reason for which the `serde_json` crate refuses a text.
#[verifier::external_type_specification]
#[verifier::external_body]
pub struct ExError(serde_json::Error);

/// The members of an object of the `serde_json` crate.
#[verifier::external_type_specification]
#[verifier::external_body]
#[verifier::reject_recursive_types(K)]
#[verifier::reject_recursive_types(V)]
pub struct ExMap<K, V>(serde_json::Map<K, V>);

/// What a `serde_json` value holds.
pub uninterp spec fn value_tree(value: serde_json::Value) -> JsonTree;

/// What the members of a `serde_json` object are.
pub uninterp spec fn map_members(map: serde_json::Map<String, serde_json::Value>) -> Map<
    Seq<char>,
    JsonTree,
>;

/// What `serde_json::from_str` reads out of a text; `None` where it refuses it.
pub uninterp spec fn parsed_tree(text: Seq<char>) -> Option<JsonTree>;

/// The text that `serde_json::to_string` writes for a document.
pub uninterp spec fn compact_text(tree: JsonTree) -> Seq<char>;

/// The text that `serde_json::to_string_pretty` writes for a document.
pub uninterp spec fn pretty_text(tree: JsonTree) -> Seq<char>;

/// How deep `serde_json::from_str` follows nested arrays and objects.
pub const NESTING_LIMIT: u8 = 127;

/// `serde_json::from_str`: which texts it accepts, and the value that it reads,
/// depend on the text alone. Which texts those are is not stated.
#[verifier::external_body]
fn parse_value(text: &str) -> (parsed: Result<serde_json::Value, serde_json::Error>)
    ensures
        parsed is Ok <==> parsed_tree(text@) is Some,
        parsed matches Ok(value) ==> parsed_tree(text@) == Some(value_tree(value)),
{
    serde_json::from_str(text)
}

/// `serde_json::to_string`: it does not fail on a value, and the text depends
/// only on what the value holds, as long as that is no number other than an
/// integer. The text is one line without white space around it, and
/// `serde_json::from_str` reads the same document out of it, which takes that
/// the document is not nested too deep for that function.
#[verifier::external_body]
fn compact_value(value: &serde_json::Value) -> (written: Result<String, serde_json::Error>)
    requires
        value_tree(*value).fits(NESTING_LIMIT as nat),
    ensures
        written is Ok,
        written->Ok_0@ == compact_text(value_tree(*value)),
        written->Ok_0@.len() > 0,
        !written->Ok_0@.contains('\n'),
        trimmed(written->Ok_0@) == written->Ok_0@,
        parsed_tree(written->Ok_0@) == Some(value_tree(*value)),
{
    serde_json::to_string(value)
}

/// `serde_json::to_string_pretty`: it does not fail on a value, the text
/// depends only on what the value holds, as long as that is no number other
/// than an integer, and `serde_json::from_str` reads the same document out of
/// it, which takes that the document is not nested too deep for that function.
#[verifier::external_body]
fn pretty_value(value: &serde_json::Value) -> (written: Result<String, serde_json::Error>)
    requires
        value_tree(*value).fits(NESTING_LIMIT as nat),
    ensures
        written is Ok,
        written->Ok_0@ == pretty_text(value_tree(*value)),
        parsed_tree(written->Ok_0@) == Some(value_tree(*value)),
{
    serde_json::to_string_pretty(value)
}

/// One level of a `serde_json` value, borrowed from it. A number is shown by
/// what `as_u64` and `as_i64` say of it.
enum Node<'a> {
    Null,
    Bool(bool),
    Number(Option<u64>, Option<i64>),
    Text(&'a String),
    Array(&'a Vec<serde_json::Value>),
    Object(Vec<(&'a String, &'a serde_json::Value)>),
}

/// The map that the members of a node stand for.
spec fn node_members(members: Seq<(&String, &serde_json::Value)>) -> Map<Seq<char>, JsonTree>
    decreases members.len(),
{
    if members.len() == 0 {
        Map::empty()
    } else {
        node_members(members.drop_last()).insert(
            members.last().0@,
            value_tree(*members.last().1),
        )
    }
}

/// The node is the top level of the document.
spec fn shows(node: Node<'_>, tree: JsonTree) -> bool {
    match node {
        Node::Null => tree == JsonTree::Null,
        Node::Bool(b) => tree == JsonTree::Bool(b),
        Node::Number(unsigned, signed) => match (unsigned, signed) {
            (Some(n), _) => tree == JsonTree::Int(n as int),
            (None, Some(n)) => tree == JsonTree::Int(n as int),
            (None, None) => tree == JsonTree::Real,
        },
        Node::Text(text) => tree == JsonTree::Text(text@),
        Node::Array(items) => tree == JsonTree::Array(
            Seq::new(items@.len(), |i: int| value_tree(items@[i])),
        ),
        Node::Object(members) => {
            &&& tree == JsonTree::Object(node_members(members@))
            &&& forall|i: int, j: int|
                0 <= i < j < members@.len() ==> (#[trigger] members@[i]).0@ != (
                #[trigger] members@[j]).0@
        },
    }
}

/// The variants of `serde_json::Value`, with what they hold: `Number::as_u64`
/// and `Number::as_i64` for a number, which give an integer exactly and nothing
/// for any other number; for an object its members in the order of
/// `serde_json::Map::iter`, in which no name comes twice.
#[verifier::external_body]
fn open_value(value: &serde_json::Value) -> (node: Node<'_>)
    ensures
        shows(node, value_tree(*value)),
{
    match value {
        serde_json::Value::Null => Node::Null,
        serde_json::Value::Bool(b) => Node::Bool(*b),
        serde_json::Value::Number(n) => Node::Number(n.as_u64(), n.as_i64()),
        serde_json::Value::String(text) => Node::Text(text),
        serde_json::Value::Array(items) => Node::Array(items),
        serde_json::Value::Object(members) => Node::Object(members.iter().collect()),
    }
}

/// `serde_json::Map::new`: there are no members.
#[verifier::external_body]
fn no_members() -> (map: serde_json::Map<String, serde_json::Value>)
    ensures
        (map_members(map) == Map::<Seq<char>, JsonTree>::empty()),
{
    serde_json::Map::new()
}

/// `serde_json::Map::insert`: the member `name` is added with the given value,
/// or gets that value where it is there already; the other members stay as they
/// are.
#[verifier::external_body]
fn insert_member(
    map: &mut serde_json::Map<String, serde_json::Value>,
    name: String,
    value: serde_json::Value,
)
    ensures
        map_members(*final(map)) == map_members(*old(map)).insert(name@, value_tree(value)),
{
    let _ = map.insert(name, value);
}

/// One level of a `serde_json` value that is being built.
enum Part {
    Null,
    Bool(bool),
    Unsigned(u64),
    Negative(i64),
    Text(String),
    Array(Vec<serde_json::Value>),
    Object(serde_json::Map<String, serde_json::Value>),
}

/// The document whose top level is the part.
spec fn part_tree(part: Part) -> JsonTree {
    match part {
        Part::Null => JsonTree::Null,
        Part::Bool(b) => JsonTree::Bool(b),
        Part::Unsigned(n) => JsonTree::Int(n as int),
        Part::Negative(n) => JsonTree::Int(n as int),
        Part::Text(text) => JsonTree::Text(text@),
        Part::Array(items) => JsonTree::Array(
            Seq::new(items@.len(), |i: int| value_tree(items@[i])),
        ),
        Part::Object(map) => JsonTree::Object(map_members(map)),
    }
}

/// The variants of `serde_json::Value`, made from what they are to hold; an
/// integer is held exactly.
#[verifier::external_body]
fn close_value(part: Part) -> (value: serde_json::Value)
    ensures
        value_tree(value) == part_tree(part),
{
    match part {
        Part::Null => serde_json::Value::Null,
        Part::Bool(b) => serde_json::Value::Bool(b),
        Part::Unsigned(n) => serde_json::Value::from(n),
        Part::Negative(n) => serde_json::Value::from(n),
        Part::Text(text) => serde_json::Value::String(text),
        Part::Array(items) => serde_json::Value::Array(items),
        Part::Object(map) => serde_json::Value::Object(map),
    }
}

/// Every member of a node is a member of the map that the node stands for.
proof fn lemma_node_member(members: Seq<(&String, &serde_json::Value)>, i: int)
    requires
        0 <= i < members.len(),
        forall|j: int, k: int|
            0 <= j < k < members.len() ==> (#[trigger] members[j]).0@ != (
            #[trigger] members[k]).0@,
    ensures
        node_members(members).dom().finite(),
        node_members(members).dom().contains(members[i].0@),
        node_members(members)[members[i].0@] == value_tree(*members[i].1),
    decreases members.len(),
{
    if members.len() == 1 {
        assert(node_members(members.drop_last()) =~= Map::empty());
    } else if i == members.len() - 1 {
        lemma_node_member(members.drop_last(), 0);
    } else {
        lemma_node_member(members.drop_last(), i);
    }
}

/// Reads a `serde_json` value into the library's own tree.
fn read_value(value: &serde_json::Value) -> (json: Json)
    ensures
        json@ == value_tree(*value),
    decreases value_tree(*value),
{
    let ghost tree = value_tree(*value);
    match open_value(value) {
        Node::Null => Json::Null,
        Node::Bool(b) => Json::Bool(b),
        Node::Number(unsigned, signed) => match (unsigned, signed) {
            (Some(n), _) => Json::Unsigned(n),
            (None, Some(n)) => Json::Negative(n),
            (None, None) => Json::Real,
        },
        Node::Text(text) => Json::Text(text.clone()),
        Node::Array(values) => {
            let mut items: Vec<Json> = Vec::new();
            let ghost trees = Seq::new(values@.len(), |k: int| value_tree(values@[k]));
            for i in 0..values.len()
                invariant
                    items@.len() == i,
                    trees == Seq::new(values@.len(), |k: int| value_tree(values@[k])),
                    tree == JsonTree::Array(trees),
                    tree == value_tree(*value),
                    forall|k: int| 0 <= k < i ==> tree_of(#[trigger] items@[k]) == trees[k],
            {
                assert(decreases_to!(tree => tree->Array_0));
                assert(decreases_to!(trees => trees[i as int]));
                items.push(read_value(&values[i]));
            }
            assert(item_trees(items@) =~= trees);
            Json::Array(items)
        },
        Node::Object(values) => {
            let mut members: Vec<(String, Json)> = Vec::new();
            let ghost all = node_members(values@);
            assert(values@.take(0) =~= Seq::empty());
            for i in 0..values.len()
                invariant
                    all == node_members(values@),
                    tree == JsonTree::Object(all),
                    tree == value_tree(*value),
                    forall|j: int, k: int|
                        0 <= j < k < values@.len() ==> (#[trigger] values@[j]).0@ != (
                        #[trigger] values@[k]).0@,
                    member_trees(members@) == node_members(values@.take(i as int)),
            {
                proof {
                    lemma_node_member(values@, i as int);
                    assert(decreases_to!(tree => tree->Object_0));
                    assert(decreases_to!(all => all[values@[i as int].0@]));
                }
                let ghost before = members@;
                members.push((values[i].0.clone(), read_value(values[i].1)));
                assert(members@.drop_last() =~= before);
                assert(values@.take(i + 1).drop_last() =~= values@.take(i as int));
            }
            assert(values@.take(values@.len() as int) =~= values@);
            Json::Object(members)
        },
    }
}

/// An item of an array is nested less deep than the array.
proof fn lemma_item_fits(items: Seq<JsonTree>, levels: nat, i: int)
    requires
        JsonTree::Array(items).fits(levels),
        0 <= i < items.len(),
    ensures
        levels > 0,
        items[i].fits((levels - 1) as nat),
{
    let tree = JsonTree::Array(items);
    assert(tree->Array_0 == items);
    assert(tree->Array_0[i].fits((levels - 1) as nat));
}

/// A member of an object is nested less deep than the object.
proof fn lemma_member_fits(
    members: Map<Seq<char>, JsonTree>,
    levels: nat,
    key: Seq<char>,
)
    requires
        JsonTree::Object(members).fits(levels),
        members.dom().contains(key),
    ensures
        levels > 0,
        members[key].fits((levels - 1) as nat),
{
    let tree = JsonTree::Object(members);
    assert(tree->Object_0 == members);
    assert(tree->Object_0[key].fits((levels - 1) as nat));
}

/// An array is nested one level deeper than its items.
proof fn lemma_array_fits(items: Seq<JsonTree>, levels: nat)
    requires
        levels > 0,
        forall|i: int| 0 <= i < items.len() ==> (#[trigger] items[i]).fits((levels - 1) as nat),
    ensures
        JsonTree::Array(items).fits(levels),
{
    let tree = JsonTree::Array(items);
    assert(tree->Array_0 == items);
    assert forall|i: int| 0 <= i < tree->Array_0.len() implies (#[trigger] tree->Array_0[i]).fits(
        (levels - 1) as nat,
    ) by {
        assert(tree->Array_0[i] == items[i]);
    }
}

/// An object is nested one level deeper than its members.
proof fn lemma_object_fits(members: Map<Seq<char>, JsonTree>, levels: nat)
    requires
        levels > 0,
        forall|key: Seq<char>|
            members.dom().contains(key) ==> (#[trigger] members[key]).fits((levels - 1) as nat),
    ensures
        JsonTree::Object(members).fits(levels),
{
    let tree = JsonTree::Object(members);
    assert(tree->Object_0 == members);
    assert forall|key: Seq<char>| tree->Object_0.dom().contains(key) implies (
    #[trigger] tree->Object_0[key]).fits((levels - 1) as nat) by {
        assert(tree->Object_0[key] == members[key]);
    }
}

/// A member adds at most its own levels, and one.
proof fn lemma_insert_fits(
    members: Map<Seq<char>, JsonTree>,
    key: Seq<char>,
    value: JsonTree,
    levels: nat,
)
    requires
        levels > 0,
        JsonTree::Object(members).fits(levels),
        value.fits((levels - 1) as nat),
    ensures
        JsonTree::Object(members.insert(key, value)).fits(levels),
{
    let more = members.insert(key, value);
    assert forall|k: Seq<char>| more.dom().contains(k) implies (#[trigger] more[k]).fits(
        (levels - 1) as nat,
    ) by {
        if k != key {
            lemma_member_fits(members, levels, k);
        }
    }
    lemma_object_fits(more, levels);
}

/// Builds the `serde_json` value of a document in which every number is an
/// integer.
fn write_value(json: &Json, levels: Ghost<nat>) -> (value: serde_json::Value)
    ensures
        json@.fits(levels@) ==> value_tree(value) == json@,
    decreases json,
{
    match json {
        Json::Null | Json::Real => close_value(Part::Null),
        Json::Bool(b) => close_value(Part::Bool(*b)),
        Json::Unsigned(n) => close_value(Part::Unsigned(*n)),
        Json::Negative(n) => close_value(Part::Negative(*n)),
        Json::Text(text) => close_value(Part::Text(text.clone())),
        Json::Array(items) => {
            let mut values: Vec<serde_json::Value> = Vec::new();
            for i in 0..items.len()
                invariant
                    values@.len() == i,
                    *json == Json::Array(*items),
                    forall|k: int|
                        0 <= k < i && tree_of(items@[k]).fits((levels@ - 1) as nat) ==> value_tree(
                            #[trigger] values@[k],
                        ) == tree_of(items@[k]),
            {
                assert(decreases_to!(*json => json->Array_0));
                assert(decreases_to!(items => items@));
                assert(decreases_to!(items@ => items@[i as int]));
                values.push(write_value(&items[i], Ghost((levels@ - 1) as nat)));
            }
            proof {
                if json@.fits(levels@) {
                    let trees = item_trees(items@);
                    assert(json@ == JsonTree::Array(trees));
                    assert forall|k: int| 0 <= k < items@.len() implies value_tree(
                        #[trigger] values@[k],
                    ) == trees[k] by {
                        lemma_item_fits(trees, levels@, k);
                    }
                    assert(Seq::new(values@.len(), |i: int| value_tree(values@[i])) =~= trees);
                }
            }
            close_value(Part::Array(values))
        },
        Json::Object(members) => {
            let mut map = no_members();
            assert(members@.take(0) =~= Seq::empty());
            for i in 0..members.len()
                invariant
                    *json == Json::Object(*members),
                    map_members(map).dom() == member_trees(members@.take(i as int)).dom(),
                    forall|key: Seq<char>|
                        member_trees(members@.take(i as int)).dom().contains(key)
                            && member_trees(members@.take(i as int))[key].fits(
                            (levels@ - 1) as nat,
                        ) ==> #[trigger] map_members(map)[key] == member_trees(
                            members@.take(i as int),
                        )[key],
            {
                assert(decreases_to!(*json => json->Object_0));
                assert(decreases_to!(members => members@));
                assert(decreases_to!(members@ => members@[i as int]));
                assert(decreases_to!(members@[i as int] => members@[i as int].1));
                let value = write_value(&members[i].1, Ghost((levels@ - 1) as nat));
                insert_member(&mut map, members[i].0.clone(), value);
                assert(members@.take(i + 1).drop_last() =~= members@.take(i as int));
            }
            assert(members@.take(members@.len() as int) =~= members@);
            proof {
                if json@.fits(levels@) {
                    let trees = member_trees(members@);
                    assert(json@ == JsonTree::Object(trees));
                    assert forall|key: Seq<char>| trees.dom().contains(key) implies map_members(
                        map,
                    )[key] == trees[key] by {
                        lemma_member_fits(trees, levels@, key);
                    }
                    assert(map_members(map) =~= trees);
                }
            }
            close_value(Part::Object(map))
        },
    }
}

/// Reads a document out of a text; `None` where the text is not JSON.
pub fn parse(text: &str) -> (json: Option<Json>)
    ensures
        json is Some <==> parsed_tree(text@) is Some,
        json matches Some(json) ==> parsed_tree(text@) == Some(json@),
{
    match parse_value(text) {
        Ok(value) => Some(read_value(&value)),
        Err(_) => None,
    }
}

/// Writes a document on one line.
pub fn compact(json: &Json) -> (text: String)
    requires
        json@.fits(NESTING_LIMIT as nat),
    ensures
        text@ == compact_text(json@),
        text@.len() > 0,
        !text@.contains('\n'),
        trimmed(text@) == text@,
        parsed_tree(text@) == Some(json@),
{
    let value = write_value(json, Ghost(NESTING_LIMIT as nat));
    match compact_value(&value) {
        Ok(text) => text,
        Err(_) => String::new(),
    }
}

/// Writes a document over several lines, indented.
pub fn pretty(json: &Json) -> (text: String)
    requires
        json@.fits(NESTING_LIMIT as nat),
    ensures
        text@ == pretty_text(json@),
        parsed_tree(text@) == Some(json@),
{
    let value = write_value(json, Ghost(NESTING_LIMIT as nat));
    match pretty_value(&value) {
        Ok(text) => text,
        Err(_) => String::new(),
    }
}

/// The document is an object, and its member `key` is `value`.
pub open spec fn holds(tree: JsonTree, key: Seq<char>, value: JsonTree) -> bool {
    tree matches JsonTree::Object(members) && members.dom().contains(key) && members[key] == value
}

/// The document has no member `key`.
pub open spec fn lacks(tree: JsonTree, key: Seq<char>) -> bool {
    forall|value: JsonTree| !#[trigger] holds(tree, key, value)
}

/// The document has no member `key` that is a string.
pub open spec fn lacks_text(tree: JsonTree, key: Seq<char>) -> bool {
    forall|text: Seq<char>| !#[trigger] holds(tree, key, JsonTree::Text(text))
}

/// A member of a document is found exactly where the document is an object that
/// has it, and it is found as it is; its text is found exactly where it is a
/// string, every character of it.
pub proof fn law_members(tree: JsonTree, key: Seq<char>, value: JsonTree, text: Seq<char>)
    ensures
        tree.get(key) == Some(value) <==> holds(tree, key, value),
        tree.get(key) is None <==> lacks(tree, key),
        tree.get_text(key) == Some(text) <==> holds(tree, key, JsonTree::Text(text)),
        tree.get_text(key) is None <==> lacks_text(tree, key),
{
    if tree.get(key) is None {
        assert forall|v: JsonTree| !#[trigger] holds(tree, key, v) by {}
    } else {
        assert(holds(tree, key, tree.get(key)->0));
    }
    if tree.get_text(key) is None {
        assert forall|t: Seq<char>| !#[trigger] holds(tree, key, JsonTree::Text(t)) by {}
    } else {
        assert(holds(tree, key, JsonTree::Text(tree.get_text(key)->0)));
    }
}

/// The values of a document are read as they are: a string by its characters, an
/// integer where it is in range, an array by its items; nothing is read out of
/// another kind of document.
pub proof fn law_values(tree: JsonTree, text: Seq<char>, n: int, items: Seq<JsonTree>)
    ensures
        tree.text() == Some(text) <==> tree == JsonTree::Text(text),
        tree.items() == Some(items) <==> tree == JsonTree::Array(items),
        tree.text() is None <==> tree !is Text,
        tree.items() is None <==> tree !is Array,
        JsonTree::Int(n).unsigned() matches Some(m) ==> m == n,
        JsonTree::Int(n).unsigned() is Some <==> 0 <= n <= u64::MAX,
        JsonTree::Int(n).signed() matches Some(m) ==> m == n,
        JsonTree::Int(n).signed() is Some <==> i64::MIN <= n <= i64::MAX,
        tree !is Int ==> tree.unsigned() is None && tree.signed() is None,
{
}

/// The model of a document keeps all that it holds.
pub proof fn law_model(json: Json)
    ensures
        match json {
            Json::Null => json@ == JsonTree::Null,
            Json::Bool(b) => json@ == JsonTree::Bool(b),
            Json::Unsigned(n) => json@ == JsonTree::Int(n as int),
            Json::Negative(n) => json@ == JsonTree::Int(n as int),
            Json::Real => json@ == JsonTree::Real,
            Json::Text(text) => json@ == JsonTree::Text(text@),
            Json::Array(items) => json@ is Array && json@->Array_0.len() == items@.len() && (forall|
                i: int,
            |
                0 <= i < items@.len() ==> #[trigger] json@->Array_0[i] == items@[i]@),
            Json::Object(_) => json@ is Object,
        },
{
}

/// Of the members of an object each one that is named is there, and of those with
/// the same name the last one counts.
pub proof fn law_last_member_counts(members: Seq<(String, Json)>, key: Seq<char>, i: int)
    ensures
        member_trees(members).dom().contains(key) <==> exists|k: int|
            0 <= k < members.len() && (#[trigger] members[k]).0@ == key,
        0 <= i < members.len() && members[i].0@ == key && (forall|k: int|
            i < k < members.len() ==> (#[trigger] members[k]).0@ != key) ==> member_trees(
            members,
        ).dom().contains(key) && member_trees(members)[key] == members[i].1@,
    decreases members.len(),
{
    if members.len() > 0 {
        let before = members.drop_last();
        law_last_member_counts(before, key, i);
        let last = members.len() - 1;
        if members.last().0@ == key {
            assert(members[last].0@ == key);
        } else {
            if exists|k: int| 0 <= k < members.len() && (#[trigger] members[k]).0@ == key {
                let k = choose|k: int| 0 <= k < members.len() && (#[trigger] members[k]).0@ == key;
                assert(before[k].0@ == key);
            }
            if exists|k: int| 0 <= k < before.len() && (#[trigger] before[k]).0@ == key {
                let k = choose|k: int| 0 <= k < before.len() && (#[trigger] before[k]).0@ == key;
                assert(members[k].0@ == key);
            }
            if 0 <= i < before.len() {
                assert(before[i] == members[i]);
                assert forall|k: int| i < k < before.len() implies (#[trigger] before[k]).0@
                    == members[k].0@ by {}
            }
        }
    }
}

/// A document or a text that may be missing is there in its model exactly where it
/// is there, and is the same.
pub proof fn law_found(json: Option<&Json>, text: Option<&str>)
    ensures
        json is None ==> found(json) is None,
        json matches Some(j) ==> found(json) == Some(j@),
        text is None ==> found_text(text) is None,
        text matches Some(t) ==> found_text(text) == Some(t@),
{
}

} // verus!
