//! JSON values: the model that requests are built in and responses are read
//! from, and its passage to and from text by `serde_json`.
use crate::text::str_eq;
use vstd::prelude::*;

verus! {

/// `serde_json::Number`: a number as the decoder holds it.
#[verifier::external_type_specification]
#[verifier::external_body]
pub struct ExNumber(serde_json::Number);

/// `serde_json::Value`: a value as the decoder and the encoder hold it.
#[verifier::external_type_specification]
#[verifier::external_body]
pub struct ExValue(serde_json::Value);

/// What a JSON number stands for: an integer, or a real kept as its decimal text.
pub enum NumberView {
    Int(int),
    Real(Seq<char>),
}

/// The mathematical model of a JSON value. An object is a map from member
/// names to values: its members have no order and no name occurs twice.
pub enum JsonView {
    Null,
    Bool(bool),
    Number(NumberView),
    Text(Seq<char>),
    Array(Seq<JsonView>),
    Object(Map<Seq<char>, JsonView>),
}

impl JsonView {
    /// The member of that name, where this is an object that has one.
    pub open spec fn member(self, key: Seq<char>) -> Option<JsonView> {
        match self {
            JsonView::Object(m) => if m.contains_key(key) {
                Some(m[key])
            } else {
                None
            },
            _ => None,
        }
    }
}

/// A JSON value.
///
/// An integer may stand in `Int` or in `UInt`; a number with a fraction or an
/// exponent is carried as the number that the decoder made of it. The members
/// of an object are a list, in which a later member replaces an earlier one of
/// the same name.
#[derive(Debug, PartialEq, Eq)]
pub enum Json {
    Null,
    Bool(bool),
    Int(i64),
    UInt(u64),
    Real(serde_json::Number),
    Str(String),
    Array(Vec<Json>),
    Object(Vec<(String, Json)>),
}

/// The map that a list of members stands for: a later member replaces an
/// earlier one of the same name.
#[verifier::opaque]
pub open spec fn members_map(members: Seq<(Seq<char>, JsonView)>) -> Map<Seq<char>, JsonView>
    decreases members.len(),
{
    if members.len() == 0 {
        Map::empty()
    } else {
        members_map(members.drop_last()).insert(members.last().0, members.last().1)
    }
}

/// The value of the last member of that name in a list of members.
pub open spec fn last_member(members: Seq<(Seq<char>, JsonView)>, key: Seq<char>) -> Option<
    JsonView,
>
    decreases members.len(),
{
    if members.len() == 0 {
        None
    } else if members.last().0 == key {
        Some(members.last().1)
    } else {
        last_member(members.drop_last(), key)
    }
}

/// Looking a name up in the map of a list finds the last member of that name.
pub proof fn lemma_members_map_lookup(members: Seq<(Seq<char>, JsonView)>, key: Seq<char>)
    ensures
        JsonView::Object(members_map(members)).member(key) == last_member(members, key),
    decreases members.len(),
{
    reveal_with_fuel(members_map, 2);
    if members.len() > 0 {
        lemma_members_map_lookup(members.drop_last(), key);
    }
}

/// The map of a list of members is finite.
pub proof fn lemma_members_map_finite(members: Seq<(Seq<char>, JsonView)>)
    ensures
        members_map(members).dom().finite(),
    decreases members.len(),
{
    reveal_with_fuel(members_map, 2);
    if members.len() > 0 {
        lemma_members_map_finite(members.drop_last());
    }
}

impl Json {
    /// The views of the items, where this is an array.
    pub open spec fn item_views(&self) -> Seq<JsonView>
        decreases self, 0nat,
    {
        match self {
            Json::Array(items) => Seq::new(
                items@.len(),
                |i: int|
                    if 0 <= i < items@.len() {
                        items@[i].view()
                    } else {
                        JsonView::Null
                    },
            ),
            _ => Seq::empty(),
        }
    }

    /// The names and the views of the members, where this is an object.
    pub open spec fn member_views(&self) -> Seq<(Seq<char>, JsonView)>
        decreases self, 0nat,
    {
        match self {
            Json::Object(members) => Seq::new(
                members@.len(),
                |i: int|
                    if 0 <= i < members@.len() {
                        (members@[i].0@, members@[i].1.view())
                    } else {
                        (Seq::empty(), JsonView::Null)
                    },
            ),
            _ => Seq::empty(),
        }
    }
}

impl View for Json {
    type V = JsonView;

    open spec fn view(&self) -> JsonView
        decreases self, 1nat,
    {
        match self {
            Json::Null => JsonView::Null,
            Json::Bool(b) => JsonView::Bool(*b),
            Json::Int(i) => JsonView::Number(NumberView::Int(*i as int)),
            Json::UInt(u) => JsonView::Number(NumberView::Int(*u as int)),
            Json::Real(n) => JsonView::Number(number_value(*n)),
            Json::Str(s) => JsonView::Text(s@),
            Json::Array(_) => JsonView::Array(self.item_views()),
            Json::Object(_) => JsonView::Object(members_map(self.member_views())),
        }
    }
}

/// The views of a list of values.
pub open spec fn items_view(items: Seq<Json>) -> Seq<JsonView> {
    Seq::new(items.len(), |i: int| items[i]@)
}

/// The names and the views of a list of members.
pub open spec fn members_view(members: Seq<(String, Json)>) -> Seq<(Seq<char>, JsonView)> {
    Seq::new(members.len(), |i: int| (members[i].0@, members[i].1@))
}

/// The view of an array is the views of its items.
pub proof fn lemma_array_view(items: Vec<Json>)
    ensures
        Json::Array(items)@ == JsonView::Array(items_view(items@)),
{
    assert(Json::Array(items).item_views() =~= items_view(items@));
}

/// The view of an object is the map of its members.
pub proof fn lemma_object_view(members: Vec<(String, Json)>)
    ensures
        Json::Object(members)@ == JsonView::Object(members_map(members_view(members@))),
{
    assert(Json::Object(members).member_views() =~= members_view(members@));
}

/// What `serde_json` holds in a `Number`.
pub uninterp spec fn number_value(n: serde_json::Number) -> NumberView;

/// `serde_json::Number::as_i64`: the integer that the number holds, where it
/// fits in an `i64`; nothing for another integer, or for a real.
#[verifier::external_body]
fn number_as_i64(n: &serde_json::Number) -> (r: Option<i64>)
    ensures
        r == (match number_value(*n) {
            NumberView::Int(i) => if i64::MIN <= i <= i64::MAX {
                Some(i as i64)
            } else {
                None
            },
            NumberView::Real(_) => None,
        }),
{
    n.as_i64()
}

/// `serde_json::Number::as_u64`: the integer that the number holds, where it
/// fits in a `u64`; nothing for a negative integer, or for a real.
#[verifier::external_body]
fn number_as_u64(n: &serde_json::Number) -> (r: Option<u64>)
    ensures
        r == (match number_value(*n) {
            NumberView::Int(i) => if 0 <= i <= u64::MAX {
                Some(i as u64)
            } else {
                None
            },
            NumberView::Real(_) => None,
        }),
{
    n.as_u64()
}

/// `From<i64> for serde_json::Number`: the number that holds this integer.
#[verifier::external_body]
pub(crate) fn number_from_i64(i: i64) -> (n: serde_json::Number)
    ensures
        number_value(n) == NumberView::Int(i as int),
{
    serde_json::Number::from(i)
}

/// `From<u64> for serde_json::Number`: the number that holds this integer.
#[verifier::external_body]
pub(crate) fn number_from_u64(u: u64) -> (n: serde_json::Number)
    ensures
        number_value(n) == NumberView::Int(u as int),
{
    serde_json::Number::from(u)
}

/// `Clone for serde_json::Number`: the copy is the same number.
pub assume_specification[ <serde_json::Number as Clone>::clone ](
    n: &serde_json::Number,
) -> (r: serde_json::Number)
    ensures
        r == *n,
;

/// What `serde_json` holds in a `Value`.
pub uninterp spec fn value_view(v: serde_json::Value) -> JsonView;

/// The compact text that `serde_json` prints for a value.
pub uninterp spec fn json_text(v: JsonView) -> Seq<char>;

/// The indented text that `serde_json` prints for a value.
pub uninterp spec fn json_pretty_text(v: JsonView) -> Seq<char>;

/// The value that `serde_json` reads from a text, where the text is JSON.
pub uninterp spec fn json_parsed(text: Seq<char>) -> Option<JsonView>;

/// One level of a `serde_json::Value`: which kind of value it is, and for an
/// array or an object the values below it, still as `serde_json` holds them.
pub enum Node<'a> {
    Null,
    Bool(bool),
    Number(&'a serde_json::Number),
    Text(&'a str),
    Items(&'a Vec<serde_json::Value>),
    Members(Vec<(&'a String, &'a serde_json::Value)>),
}

/// The names of a node's members and what each member holds.
pub open spec fn node_members(members: Seq<(&String, &serde_json::Value)>) -> Seq<
    (Seq<char>, JsonView),
> {
    Seq::new(members.len(), |i: int| (members[i].0@, value_view(*members[i].1)))
}

/// What a node stands for.
pub open spec fn node_view(n: Node) -> JsonView {
    match n {
        Node::Null => JsonView::Null,
        Node::Bool(b) => JsonView::Bool(b),
        Node::Number(x) => JsonView::Number(number_value(*x)),
        Node::Text(s) => JsonView::Text(s@),
        Node::Items(items) => JsonView::Array(
            Seq::new(items@.len(), |i: int| value_view(items@[i])),
        ),
        Node::Members(members) => JsonView::Object(members_map(node_members(members@))),
    }
}

/// Takes a `serde_json::Value` apart by its variants: the node stands for
/// what the value holds, and the members of an object come with names that
/// differ from one another, as the keys of `serde_json::Map` do.
#[verifier::external_body]
fn open<'a>(v: &'a serde_json::Value) -> (n: Node<'a>)
    ensures
        node_view(n) == value_view(*v),
        n matches Node::Members(members) ==> forall|i: int, j: int|
            0 <= i < j < members@.len() ==> members@[i].0@ != members@[j].0@,
{
    match v {
        serde_json::Value::Null => Node::Null,
        serde_json::Value::Bool(b) => Node::Bool(*b),
        serde_json::Value::Number(x) => Node::Number(x),
        serde_json::Value::String(s) => Node::Text(s.as_str()),
        serde_json::Value::Array(items) => Node::Items(items),
        serde_json::Value::Object(members) => Node::Members(members.iter().collect()),
    }
}

/// Puts a `serde_json::Value` together from a node: the value holds what the
/// node stands for. The members of an object are put into a `serde_json::Map`
/// one after another by `Map::insert`, which replaces the value of a name that
/// is there already.
#[verifier::external_body]
fn close(n: Node<'_>) -> (v: serde_json::Value)
    ensures
        value_view(v) == node_view(n),
{
    match n {
        Node::Null => serde_json::Value::Null,
        Node::Bool(b) => serde_json::Value::Bool(b),
        Node::Number(x) => serde_json::Value::Number(x.clone()),
        Node::Text(s) => serde_json::Value::String(s.to_owned()),
        Node::Items(items) => serde_json::Value::Array(items.clone()),
        Node::Members(members) => {
            let mut map = serde_json::Map::new();
            for (name, value) in members {
                map.insert(name.clone(), value.clone());
            }
            serde_json::Value::Object(map)
        },
    }
}

/// `serde_json::from_str` at `serde_json::Value`: succeeds on the texts that
/// are JSON, with the value read; what it says of another text is dropped.
#[verifier::external_body]
fn parse_value(text: &str) -> (r: Option<serde_json::Value>)
    ensures
        match r {
            Some(v) => json_parsed(text@) == Some(value_view(v)),
            None => json_parsed(text@) is None,
        },
{
    serde_json::from_str(text).ok()
}

/// `Display for serde_json::Value`: the compact text of the value.
#[verifier::external_body]
fn print_value(v: &serde_json::Value) -> (r: String)
    ensures
        r@ == json_text(value_view(*v)),
{
    v.to_string()
}

/// `Display for serde_json::Value` in its alternate form: the text of the
/// value on several lines, indented by two spaces.
#[verifier::external_body]
fn print_value_pretty(v: &serde_json::Value) -> (r: String)
    ensures
        r@ == json_pretty_text(value_view(*v)),
{
    format!("{:#}", v)
}

/// Where the names of a list of members differ from one another, the map of
/// the list holds each member.
pub proof fn lemma_members_map_distinct(members: Seq<(Seq<char>, JsonView)>, i: int)
    requires
        0 <= i < members.len(),
        forall|a: int, b: int| 0 <= a < b < members.len() ==> members[a].0 != members[b].0,
    ensures
        members_map(members).contains_key(members[i].0),
        members_map(members)[members[i].0] == members[i].1,
    decreases members.len(),
{
    reveal_with_fuel(members_map, 2);
    if i < members.len() - 1 {
        lemma_members_map_distinct(members.drop_last(), i);
    }
}

/// The value that `serde_json` holds, taken apart level by level.
fn from_value(v: &serde_json::Value) -> (j: Json)
    ensures
        j@ == value_view(*v),
    decreases value_view(*v),
{
    match open(v) {
        Node::Null => Json::Null,
        Node::Bool(b) => Json::Bool(b),
        Node::Number(x) => {
            match number_as_u64(x) {
                Some(u) => Json::UInt(u),
                None => match number_as_i64(x) {
                    Some(i) => Json::Int(i),
                    None => Json::Real(x.clone()),
                },
            }
        },
        Node::Text(s) => Json::Str(s.to_owned()),
        Node::Items(items) => {
            let mut out: Vec<Json> = Vec::new();
            let mut i: usize = 0;
            while i < items.len()
                invariant
                    i <= items.len(),
                    out@.len() == i,
                    value_view(*v) == JsonView::Array(
                        Seq::new(items@.len(), |k: int| value_view(items@[k])),
                    ),
                    forall|k: int| 0 <= k < i ==> out@[k]@ == value_view(items@[k]),
                decreases items.len() - i,
            {
                proof {
                    let views = Seq::new(items@.len(), |k: int| value_view(items@[k]));
                    assert(views[i as int] == value_view(items@[i as int]));
                    assert(value_view(*v)->Array_0 == views);
                    assert(decreases_to!(value_view(*v) => value_view(*v)->Array_0));
                    assert(decreases_to!(views => views[i as int]));
                }
                let item = from_value(&items[i]);
                out.push(item);
                i += 1;
            }
            proof {
                lemma_array_view(out);
                assert(items_view(out@) =~= Seq::new(
                    items@.len(),
                    |k: int| value_view(items@[k]),
                ));
            }
            Json::Array(out)
        },
        Node::Members(members) => {
            let mut out: Vec<(String, Json)> = Vec::new();
            let mut i: usize = 0;
            while i < members.len()
                invariant
                    i <= members.len(),
                    out@.len() == i,
                    value_view(*v) == JsonView::Object(members_map(node_members(members@))),
                    forall|a: int, b: int|
                        0 <= a < b < members@.len() ==> members@[a].0@ != members@[b].0@,
                    forall|k: int|
                        0 <= k < i ==> out@[k].0@ == members@[k].0@ && out@[k].1@ == value_view(
                            *members@[k].1,
                        ),
                decreases members.len() - i,
            {
                proof {
                    let all = node_members(members@);
                    lemma_members_map_distinct(all, i as int);
                    let m = members_map(all);
                    assert(m[all[i as int].0] == value_view(*members@[i as int].1));
                    assert(value_view(*v)->Object_0 == m);
                    assert(decreases_to!(value_view(*v) => value_view(*v)->Object_0));
                    lemma_members_map_finite(all);
                    assert(decreases_to!(m => m[all[i as int].0]));
                }
                let name = members[i].0.clone();
                let value = from_value(members[i].1);
                out.push((name, value));
                i += 1;
            }
            proof {
                lemma_object_view(out);
                assert(members_view(out@) =~= node_members(members@));
            }
            Json::Object(out)
        },
    }
}

/// The value as `serde_json` holds it, put together level by level.
pub(crate) fn to_value(j: &Json) -> (v: serde_json::Value)
    ensures
        value_view(v) == j@,
    decreases j,
{
    match j {
        Json::Null => close(Node::Null),
        Json::Bool(b) => close(Node::Bool(*b)),
        Json::Int(i) => {
            let n = number_from_i64(*i);
            close(Node::Number(&n))
        },
        Json::UInt(u) => {
            let n = number_from_u64(*u);
            close(Node::Number(&n))
        },
        Json::Real(n) => close(Node::Number(n)),
        Json::Str(s) => close(Node::Text(s.as_str())),
        Json::Array(items) => {
            let mut values: Vec<serde_json::Value> = Vec::new();
            let mut i: usize = 0;
            while i < items.len()
                invariant
                    i <= items.len(),
                    values@.len() == i,
                    *j == Json::Array(*items),
                    forall|k: int| 0 <= k < i ==> value_view(values@[k]) == items@[k]@,
                decreases items.len() - i,
            {
                proof {
                    assert(decreases_to!(*j => j->Array_0));
                    assert(decreases_to!(*items => items[i as int]));
                }
                let value = to_value(&items[i]);
                values.push(value);
                i += 1;
            }
            proof {
                lemma_array_view(*items);
                assert(items_view(items@) =~= Seq::new(
                    values@.len(),
                    |k: int| value_view(values@[k]),
                ));
            }
            close(Node::Items(&values))
        },
        Json::Object(members) => {
            let mut values: Vec<serde_json::Value> = Vec::new();
            let mut i: usize = 0;
            while i < members.len()
                invariant
                    i <= members.len(),
                    values@.len() == i,
                    *j == Json::Object(*members),
                    forall|k: int| 0 <= k < i ==> value_view(values@[k]) == members@[k].1@,
                decreases members.len() - i,
            {
                proof {
                    assert(decreases_to!(*j => j->Object_0));
                    assert(decreases_to!(*members => members[i as int]));
                    assert(decreases_to!(members[i as int] => members[i as int].1));
                }
                let value = to_value(&members[i].1);
                values.push(value);
                i += 1;
            }
            let mut named: Vec<(&String, &serde_json::Value)> = Vec::new();
            let mut k: usize = 0;
            while k < members.len()
                invariant
                    k <= members.len(),
                    named@.len() == k,
                    values@.len() == members.len(),
                    forall|a: int|
                        0 <= a < members.len() ==> value_view(values@[a]) == members@[a].1@,
                    forall|a: int|
                        0 <= a < k ==> (#[trigger] named@[a]).0@ == members@[a].0@ && *named@[a].1
                            == values@[a],
                decreases members.len() - k,
            {
                named.push((&members[k].0, &values[k]));
                k += 1;
            }
            proof {
                lemma_object_view(*members);
                assert(members_view(members@) =~= node_members(named@));
            }
            close(Node::Members(named))
        },
    }
}

/// What a value that may be missing holds.
pub open spec fn opt_view<T: View>(value: Option<T>) -> Option<T::V> {
    match value {
        Some(x) => Some(x@),
        None => None,
    }
}

impl Json {
    /// Reads a value from a text: the value that `serde_json` reads from it,
    /// and nothing where the text is not JSON.
    pub fn parse(text: &str) -> (r: Option<Json>)
        ensures
            match r {
                Some(j) => json_parsed(text@) == Some(j@),
                None => json_parsed(text@) is None,
            },
    {
        match parse_value(text) {
            Some(v) => Some(from_value(&v)),
            None => None,
        }
    }

    /// The compact text of the value, as `serde_json` prints it.
    pub fn to_text(&self) -> (r: String)
        ensures
            r@ == json_text(self@),
    {
        let v = to_value(self);
        print_value(&v)
    }

    /// The text of the value on several lines, as `serde_json` prints it.
    pub fn to_pretty_text(&self) -> (r: String)
        ensures
            r@ == json_pretty_text(self@),
    {
        let v = to_value(self);
        print_value_pretty(&v)
    }

    /// The member of that name, where this is an object that has one.
    pub fn get(&self, key: &str) -> (r: Option<&Json>)
        ensures
            opt_view(r) == self@.member(key@),
    {
        match self {
            Json::Object(members) => {
                proof {
                    lemma_object_view(*members);
                    lemma_members_map_lookup(members_view(members@), key@);
                }
                let ghost all = members_view(members@);
                let mut i: usize = members.len();
                proof {
                    assert(all.take(i as int) =~= all);
                }
                while i > 0
                    invariant
                        i <= members.len(),
                        all == members_view(members@),
                        self@.member(key@) == last_member(all, key@),
                        last_member(all, key@) == last_member(all.take(i as int), key@),
                    decreases i,
                {
                    i -= 1;
                    proof {
                        let part = all.take(i + 1);
                        assert(part.last() == all[i as int]);
                        assert(part.drop_last() =~= all.take(i as int));
                    }
                    if str_eq(members[i].0.as_str(), key) {
                        return Some(&members[i].1);
                    }
                }
                proof {
                    assert(all.take(0).len() == 0);
                }
                None
            },
            _ => None,
        }
    }

    /// Whether this is an object.
    pub fn is_object(&self) -> (r: bool)
        ensures
            r == (self@ is Object),
    {
        match self {
            Json::Object(_) => true,
            _ => false,
        }
    }

    /// The truth value, where this is one.
    pub fn as_bool(&self) -> (r: Option<bool>)
        ensures
            r == (match self@ {
                JsonView::Bool(b) => Some(b),
                _ => None,
            }),
    {
        match self {
            Json::Bool(b) => Some(*b),
            _ => None,
        }
    }

    /// The integer, where this is one that fits in an `i64`.
    pub fn as_i64(&self) -> (r: Option<i64>)
        ensures
            r == (match self@ {
                JsonView::Number(NumberView::Int(i)) => if i64::MIN <= i <= i64::MAX {
                    Some(i as i64)
                } else {
                    None
                },
                _ => None,
            }),
    {
        match self {
            Json::Int(i) => Some(*i),
            Json::UInt(u) => if *u <= 0x7fff_ffff_ffff_ffff {
                Some(*u as i64)
            } else {
                None
            },
            Json::Real(n) => number_as_i64(n),
            _ => None,
        }
    }

    /// The integer, where this is one that fits in a `u64`.
    pub fn as_u64(&self) -> (r: Option<u64>)
        ensures
            r == (match self@ {
                JsonView::Number(NumberView::Int(i)) => if 0 <= i <= u64::MAX {
                    Some(i as u64)
                } else {
                    None
                },
                _ => None,
            }),
    {
        match self {
            Json::Int(i) => if *i >= 0 {
                Some(*i as u64)
            } else {
                None
            },
            Json::UInt(u) => Some(*u),
            Json::Real(n) => number_as_u64(n),
            _ => None,
        }
    }

    /// The text, where this is a string.
    pub fn as_str(&self) -> (r: Option<&str>)
        ensures
            match r {
                Some(s) => self@ == JsonView::Text(s@),
                None => !(self@ is Text),
            },
    {
        match self {
            Json::Str(s) => Some(s.as_str()),
            _ => None,
        }
    }

    /// The items, where this is an array.
    pub fn as_array(&self) -> (r: Option<&Vec<Json>>)
        ensures
            match r {
                Some(items) => self@ == JsonView::Array(items_view(items@)),
                None => !(self@ is Array),
            },
    {
        match self {
            Json::Array(items) => {
                proof {
                    lemma_array_view(*items);
                }
                Some(items)
            },
            _ => None,
        }
    }
}

/// The map that a list of members stands for.
pub open spec fn object_map(members: Seq<(String, Json)>) -> Map<Seq<char>, JsonView> {
    members_map(members_view(members))
}

/// The empty list of members stands for the empty map.
pub proof fn lemma_object_map_empty(members: Seq<(String, Json)>)
    requires
        members.len() == 0,
    ensures
        object_map(members) == Map::<Seq<char>, JsonView>::empty(),
{
    reveal_with_fuel(members_map, 2);
}

/// Adds a member to a list of members.
pub(crate) fn put_member(members: &mut Vec<(String, Json)>, key: &str, value: Json)
    ensures
        object_map(final(members)@) == object_map(old(members)@).insert(key@, value@),
{
    let ghost before = members_view(members@);
    members.push((key.to_owned(), value));
    proof {
        reveal_with_fuel(members_map, 2);
        let after = members_view(members@);
        assert(after.drop_last() =~= before);
    }
}

/// The object of a list of members.
pub fn object(members: Vec<(String, Json)>) -> (j: Json)
    ensures
        j@ == JsonView::Object(object_map(members@)),
{
    proof {
        lemma_object_view(members);
    }
    Json::Object(members)
}

} // verus!
