//! How values are written as JSON and read from it: the two traits, the ways
//! in which a member of an object is read, and the values that JSON holds
//! directly.
use crate::json::{
    items_view, json_parsed, number_from_i64, number_from_u64, number_value, object_map, opt_view,
    put_member, Json, JsonView, NumberView,
};
use vstd::prelude::*;

verus! {

/// The map with one more member where a value is given, and the same map
/// where none is.
pub open spec fn with_member(
    m: Map<Seq<char>, JsonView>,
    key: Seq<char>,
    value: Option<JsonView>,
) -> Map<Seq<char>, JsonView> {
    match value {
        Some(v) => m.insert(key, v),
        None => m,
    }
}

/// A type whose values are read from JSON.
pub trait FromJson: View + Sized {
    /// The value that a JSON value stands for, where it stands for one.
    spec fn of_json(v: JsonView) -> Option<Self::V>;

    /// Reads a value: the one that the JSON value stands for, and nothing
    /// where it stands for none.
    fn from_json(j: &Json) -> (r: Option<Self>)
        ensures
            match r {
                Some(x) => Self::of_json(j@) == Some(x@),
                None => Self::of_json(j@) is None,
            },
    ;
}

/// A type whose values are written as JSON.
pub trait ToJson: View {
    /// The JSON value that stands for a value.
    spec fn json_of(v: Self::V) -> JsonView;

    /// Writes a value as JSON.
    fn to_json(&self) -> (j: Json)
        ensures
            j@ == Self::json_of(self@),
    ;
}

/// How a member that may be missing is read: a missing member and `null`
/// both stand for no value. The outer `None` says that the member holds
/// something that is no value of the type.
#[verifier::opaque]
pub open spec fn read_optional<T: FromJson>(member: Option<JsonView>) -> Option<Option<T::V>> {
    match member {
        None => Some(None),
        Some(JsonView::Null) => Some(None),
        Some(v) => match T::of_json(v) {
            Some(x) => Some(Some(x)),
            None => None,
        },
    }
}

/// How a member is read whose setting has a default: a missing member stands
/// for no value, and `null` is no value of the type. The outer `None` says
/// that the member holds something that is no value of the type.
#[verifier::opaque]
pub open spec fn read_present<T: FromJson>(member: Option<JsonView>) -> Option<Option<T::V>> {
    match member {
        None => Some(None),
        Some(v) => match T::of_json(v) {
            Some(x) => Some(Some(x)),
            None => None,
        },
    }
}

/// How a member that must be there is read. `None` says that the member is
/// missing or holds something that is no value of the type.
#[verifier::opaque]
pub open spec fn read_required<T: FromJson>(member: Option<JsonView>) -> Option<T::V> {
    match member {
        None => None,
        Some(v) => T::of_json(v),
    }
}

/// Reads a member as one that may be missing.
pub fn optional_of<T: FromJson>(member: Option<&Json>) -> (r: Option<Option<T>>)
    ensures
        match r {
            Some(x) => read_optional::<T>(opt_view(member)) == Some(opt_view(x)),
            None => read_optional::<T>(opt_view(member)) is None,
        },
{
    proof {
        reveal(read_optional);
    }
    match member {
        None => Some(None),
        Some(Json::Null) => Some(None),
        Some(v) => match T::from_json(v) {
            Some(x) => Some(Some(x)),
            None => None,
        },
    }
}

/// Reads a member whose setting has a default.
pub fn present_of<T: FromJson>(member: Option<&Json>) -> (r: Option<Option<T>>)
    ensures
        match r {
            Some(x) => read_present::<T>(opt_view(member)) == Some(opt_view(x)),
            None => read_present::<T>(opt_view(member)) is None,
        },
{
    proof {
        reveal(read_present);
    }
    match member {
        None => Some(None),
        Some(v) => match T::from_json(v) {
            Some(x) => Some(Some(x)),
            None => None,
        },
    }
}

/// Reads a member as one that must be there.
pub fn required_of<T: FromJson>(member: Option<&Json>) -> (r: Option<T>)
    ensures
        match r {
            Some(x) => read_required::<T>(opt_view(member)) == Some(x@),
            None => read_required::<T>(opt_view(member)) is None,
        },
{
    proof {
        reveal(read_required);
    }
    match member {
        None => None,
        Some(v) => T::from_json(v),
    }
}

impl FromJson for bool {
    open spec fn of_json(v: JsonView) -> Option<bool> {
        match v {
            JsonView::Bool(b) => Some(b),
            _ => None,
        }
    }

    fn from_json(j: &Json) -> (r: Option<bool>)
        ensures
            match r {
                Some(x) => Self::of_json(j@) == Some(x@),
                None => Self::of_json(j@) is None,
            },
    {
        j.as_bool()
    }
}

impl ToJson for bool {
    open spec fn json_of(v: bool) -> JsonView {
        JsonView::Bool(v)
    }

    fn to_json(&self) -> (j: Json)
        ensures
            j@ == Self::json_of(self@),
    {
        Json::Bool(*self)
    }
}

impl FromJson for i64 {
    open spec fn of_json(v: JsonView) -> Option<i64> {
        match v {
            JsonView::Number(NumberView::Int(i)) => if i64::MIN <= i <= i64::MAX {
                Some(i as i64)
            } else {
                None
            },
            _ => None,
        }
    }

    fn from_json(j: &Json) -> (r: Option<i64>)
        ensures
            match r {
                Some(x) => Self::of_json(j@) == Some(x@),
                None => Self::of_json(j@) is None,
            },
    {
        j.as_i64()
    }
}

impl ToJson for i64 {
    open spec fn json_of(v: i64) -> JsonView {
        JsonView::Number(NumberView::Int(v as int))
    }

    fn to_json(&self) -> (j: Json)
        ensures
            j@ == Self::json_of(self@),
    {
        Json::Int(*self)
    }
}

impl FromJson for u64 {
    open spec fn of_json(v: JsonView) -> Option<u64> {
        match v {
            JsonView::Number(NumberView::Int(i)) => if 0 <= i <= u64::MAX {
                Some(i as u64)
            } else {
                None
            },
            _ => None,
        }
    }

    fn from_json(j: &Json) -> (r: Option<u64>)
        ensures
            match r {
                Some(x) => Self::of_json(j@) == Some(x@),
                None => Self::of_json(j@) is None,
            },
    {
        j.as_u64()
    }
}

impl ToJson for u64 {
    open spec fn json_of(v: u64) -> JsonView {
        JsonView::Number(NumberView::Int(v as int))
    }

    fn to_json(&self) -> (j: Json)
        ensures
            j@ == Self::json_of(self@),
    {
        Json::UInt(*self)
    }
}

impl FromJson for u32 {
    open spec fn of_json(v: JsonView) -> Option<u32> {
        match v {
            JsonView::Number(NumberView::Int(i)) => if 0 <= i <= u32::MAX {
                Some(i as u32)
            } else {
                None
            },
            _ => None,
        }
    }

    fn from_json(j: &Json) -> (r: Option<u32>)
        ensures
            match r {
                Some(x) => Self::of_json(j@) == Some(x@),
                None => Self::of_json(j@) is None,
            },
    {
        match j.as_u64() {
            Some(u) => if u <= 0xffff_ffff {
                Some(u as u32)
            } else {
                None
            },
            None => None,
        }
    }
}

impl ToJson for u32 {
    open spec fn json_of(v: u32) -> JsonView {
        JsonView::Number(NumberView::Int(v as int))
    }

    fn to_json(&self) -> (j: Json)
        ensures
            j@ == Self::json_of(self@),
    {
        Json::UInt(*self as u64)
    }
}

impl FromJson for usize {
    open spec fn of_json(v: JsonView) -> Option<usize> {
        match v {
            JsonView::Number(NumberView::Int(i)) => if 0 <= i <= usize::MAX {
                Some(i as usize)
            } else {
                None
            },
            _ => None,
        }
    }

    fn from_json(j: &Json) -> (r: Option<usize>)
        ensures
            match r {
                Some(x) => Self::of_json(j@) == Some(x@),
                None => Self::of_json(j@) is None,
            },
    {
        match j.as_u64() {
            Some(u) => if u <= usize::MAX as u64 {
                Some(u as usize)
            } else {
                None
            },
            None => None,
        }
    }
}

impl ToJson for usize {
    open spec fn json_of(v: usize) -> JsonView {
        JsonView::Number(NumberView::Int(v as int))
    }

    fn to_json(&self) -> (j: Json)
        ensures
            j@ == Self::json_of(self@),
    {
        Json::UInt(*self as u64)
    }
}

impl FromJson for String {
    open spec fn of_json(v: JsonView) -> Option<Seq<char>> {
        match v {
            JsonView::Text(s) => Some(s),
            _ => None,
        }
    }

    fn from_json(j: &Json) -> (r: Option<String>)
        ensures
            match r {
                Some(x) => Self::of_json(j@) == Some(x@),
                None => Self::of_json(j@) is None,
            },
    {
        match j.as_str() {
            Some(s) => Some(s.to_owned()),
            None => None,
        }
    }
}

impl ToJson for String {
    open spec fn json_of(v: Seq<char>) -> JsonView {
        JsonView::Text(v)
    }

    fn to_json(&self) -> (j: Json)
        ensures
            j@ == Self::json_of(self@),
    {
        Json::Str(self.as_str().to_owned())
    }
}

/// The value where there is one, and the default where there is none.
#[verifier::opaque]
pub open spec fn value_or<T>(value: Option<T>, default: T) -> T {
    match value {
        Some(x) => x,
        None => default,
    }
}

/// The value where there is one, and the default where there is none.
pub fn take_or<T>(value: Option<T>, default: T) -> (r: T)
    ensures
        r == value_or(value, default),
{
    proof {
        reveal(value_or);
    }
    match value {
        Some(x) => x,
        None => default,
    }
}

/// The JSON value that stands for a value that may be missing.
pub open spec fn json_of_option<T: ToJson>(value: Option<T::V>) -> Option<JsonView> {
    match value {
        Some(x) => Some(T::json_of(x)),
        None => None,
    }
}

/// Adds a member to a list of members where a value is given, and leaves the
/// list as it is where none is.
pub(crate) fn put_option(members: &mut Vec<(String, Json)>, key: &str, value: Option<Json>)
    ensures
        object_map(final(members)@) == with_member(
            object_map(old(members)@),
            key@,
            opt_view(value),
        ),
{
    match value {
        Some(x) => put_member(members, key, x),
        None => {},
    }
}

/// Writes a value that may be missing as JSON.
pub fn to_json_option<T: ToJson>(value: &Option<T>) -> (r: Option<Json>)
    ensures
        opt_view(r) == json_of_option::<T>(opt_view(*value)),
{
    match value {
        Some(x) => Some(x.to_json()),
        None => None,
    }
}

/// A JSON number of any kind, carried as the decoder holds it: the one kind
/// of value that may have a fraction.
#[derive(Debug, Clone, PartialEq, Eq)]
pub struct Numeral {
    pub number: serde_json::Number,
}

impl View for Numeral {
    type V = NumberView;

    open spec fn view(&self) -> NumberView {
        number_value(self.number)
    }
}

/// The number that a text stands for, where the text is JSON and a number.
pub open spec fn numeral_parsed(text: Seq<char>) -> Option<NumberView> {
    match json_parsed(text) {
        Some(JsonView::Number(n)) => Some(n),
        _ => None,
    }
}

impl Numeral {
    /// Reads a number from its text, and nothing where the text is no number.
    pub fn parse(text: &str) -> (r: Option<Numeral>)
        ensures
            opt_view(r) == numeral_parsed(text@),
    {
        match Json::parse(text) {
            Some(j) => Numeral::from_json(&j),
            None => None,
        }
    }
}

impl FromJson for Numeral {
    open spec fn of_json(v: JsonView) -> Option<NumberView> {
        match v {
            JsonView::Number(n) => Some(n),
            _ => None,
        }
    }

    fn from_json(j: &Json) -> (r: Option<Numeral>)
        ensures
            match r {
                Some(x) => Self::of_json(j@) == Some(x@),
                None => Self::of_json(j@) is None,
            },
    {
        match j {
            Json::Int(i) => Some(Numeral { number: number_from_i64(*i) }),
            Json::UInt(u) => Some(Numeral { number: number_from_u64(*u) }),
            Json::Real(n) => Some(Numeral { number: n.clone() }),
            _ => None,
        }
    }
}

impl ToJson for Numeral {
    open spec fn json_of(v: NumberView) -> JsonView {
        JsonView::Number(v)
    }

    fn to_json(&self) -> (j: Json)
        ensures
            j@ == Self::json_of(self@),
    {
        Json::Real(self.number.clone())
    }
}

/// What the items of a list hold.
pub open spec fn seq_view<T: View>(items: Seq<T>) -> Seq<T::V> {
    Seq::new(items.len(), |i: int| items[i]@)
}

/// The list that an array stands for: its items, each read as a value of the
/// type. Nothing where the value is no array, or where one of its items holds
/// no value of the type.
pub open spec fn read_array<T: FromJson>(v: JsonView) -> Option<Seq<T::V>> {
    match v {
        JsonView::Array(items) => if forall|i: int|
            0 <= i < items.len() ==> (#[trigger] T::of_json(items[i])) is Some {
            Some(Seq::new(items.len(), |i: int| T::of_json(items[i]).unwrap()))
        } else {
            None
        },
        _ => None,
    }
}

/// Reads an array as a list of values.
pub fn array_of<T: FromJson>(j: &Json) -> (r: Option<Vec<T>>)
    ensures
        match r {
            Some(items) => read_array::<T>(j@) == Some(seq_view(items@)),
            None => read_array::<T>(j@) is None,
        },
{
    match j.as_array() {
        None => None,
        Some(items) => {
            let mut out: Vec<T> = Vec::new();
            let mut i: usize = 0;
            while i < items.len()
                invariant
                    i <= items.len(),
                    out@.len() == i,
                    j@ == JsonView::Array(items_view(items@)),
                    forall|k: int|
                        0 <= k < i ==> T::of_json(items@[k]@) == Some(#[trigger] out@[k]@),
                decreases items.len() - i,
            {
                match T::from_json(&items[i]) {
                    Some(x) => {
                        out.push(x);
                    },
                    None => {
                        proof {
                            assert(items_view(items@)[i as int] == items@[i as int]@);
                        }
                        return None;
                    },
                }
                i += 1;
            }
            proof {
                let views = items_view(items@);
                assert forall|k: int| 0 <= k < views.len() implies (#[trigger] T::of_json(
                    views[k],
                )) is Some by {
                    assert(T::of_json(items@[k]@) == Some(out@[k]@));
                }
                assert(seq_view(out@) =~= Seq::new(
                    views.len(),
                    |k: int| T::of_json(views[k]).unwrap(),
                )) by {
                    assert forall|k: int| 0 <= k < views.len() implies seq_view(out@)[k]
                        == T::of_json(views[k]).unwrap() by {
                        assert(T::of_json(items@[k]@) == Some(out@[k]@));
                    }
                }
            }
            Some(out)
        },
    }
}

/// The list that the member of a name holds, where it holds one.
pub open spec fn read_list<T: FromJson>(member: Option<JsonView>) -> Option<Seq<T::V>> {
    match member {
        Some(v) => read_array::<T>(v),
        None => None,
    }
}

/// Reads the list that a member holds.
pub fn list_of<T: FromJson>(member: Option<&Json>) -> (r: Option<Vec<T>>)
    ensures
        match r {
            Some(items) => read_list::<T>(opt_view(member)) == Some(seq_view(items@)),
            None => read_list::<T>(opt_view(member)) is None,
        },
{
    match member {
        Some(j) => array_of::<T>(j),
        None => None,
    }
}

} // verus!
