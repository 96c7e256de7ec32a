//! JSON values, and how the fields of an object are read.
//!
//! An object is a list of named values. Where a name occurs more than once, the last
//! entry of that name is the one that counts.
use crate::text::str_eq;
use vstd::prelude::*;

verus! {

/// A JSON number. A number with a fraction or an exponent is held by the bits of its
/// double-precision form.
#[derive(Copy, Clone, Debug, PartialEq, Eq, Structural)]
pub enum JsonNumber {
    Unsigned(u64),
    Signed(i64),
    Float(u64),
}

/// A JSON value.
#[derive(Debug, PartialEq, Eq)]
pub enum JsonValue {
    Null,
    Bool(bool),
    Number(JsonNumber),
    String(String),
    Array(Vec<JsonValue>),
    Object(JsonObject),
}

/// A JSON object: named values, in the order in which they were written.
#[derive(Debug, PartialEq, Eq)]
pub struct JsonObject {
    pub entries: Vec<(String, JsonValue)>,
}

/// What a [`JsonValue`] stands for.
pub enum JsonView {
    Null,
    Bool(bool),
    Number(JsonNumber),
    String(Seq<char>),
    Array(Seq<JsonView>),
    Object(ObjectView),
}

/// What a [`JsonObject`] stands for: names and values, in order.
pub type ObjectView = Seq<(Seq<char>, JsonView)>;

/// What a value stands for, part by part.
pub open spec fn json_view(value: JsonValue) -> JsonView
    decreases value,
{
    match value {
        JsonValue::Null => JsonView::Null,
        JsonValue::Bool(b) => JsonView::Bool(b),
        JsonValue::Number(n) => JsonView::Number(n),
        JsonValue::String(s) => JsonView::String(s@),
        JsonValue::Array(items) => JsonView::Array(
            Seq::new(
                items.len() as nat,
                |i: int|
                    if 0 <= i < items.len() {
                        json_view(items[i])
                    } else {
                        JsonView::Null
                    },
            ),
        ),
        JsonValue::Object(o) => JsonView::Object(
            Seq::new(
                o.entries.len() as nat,
                |i: int|
                    if 0 <= i < o.entries.len() {
                        (o.entries[i].0@, json_view(o.entries[i].1))
                    } else {
                        (Seq::empty(), JsonView::Null)
                    },
            ),
        ),
    }
}

impl View for JsonValue {
    type V = JsonView;

    open spec fn view(&self) -> JsonView {
        json_view(*self)
    }
}

impl DeepView for JsonValue {
    type V = JsonView;

    open spec fn deep_view(&self) -> JsonView {
        self@
    }
}

impl View for JsonObject {
    type V = ObjectView;

    open spec fn view(&self) -> ObjectView {
        Seq::new(self.entries.len() as nat, |i: int| (self.entries[i].0@, self.entries[i].1@))
    }
}

impl DeepView for JsonObject {
    type V = ObjectView;

    open spec fn deep_view(&self) -> ObjectView {
        self@
    }
}

/// The value of the last entry named `key`, if there is such an entry.
pub open spec fn field(entries: ObjectView, key: Seq<char>) -> Option<JsonView>
    decreases entries.len(),
{
    if entries.len() == 0 {
        None
    } else if entries.last().0 == key {
        Some(entries.last().1)
    } else {
        field(entries.drop_last(), key)
    }
}

/// A text that must be there: the value has to be a string.
pub open spec fn req_text(value: Option<JsonView>) -> Option<Seq<char>> {
    match value {
        Some(JsonView::String(s)) => Some(s),
        _ => None,
    }
}

/// A marker that must be there and must be `true`.
pub open spec fn req_true(value: Option<JsonView>) -> Option<bool> {
    match value {
        Some(JsonView::Bool(true)) => Some(true),
        _ => None,
    }
}

/// A boolean that must be there.
pub open spec fn req_flag(value: Option<JsonView>) -> Option<bool> {
    match value {
        Some(JsonView::Bool(b)) => Some(b),
        _ => None,
    }
}

/// A list that must be there: the value has to be an array.
pub open spec fn req_items(value: Option<JsonView>) -> Option<Seq<JsonView>> {
    match value {
        Some(JsonView::Array(items)) => Some(items),
        _ => None,
    }
}

/// An optional text: absent or null reads as unset, a string as itself, anything else
/// does not read.
pub open spec fn opt_text(value: Option<JsonView>) -> Option<Option<Seq<char>>> {
    match value {
        None => Some(None),
        Some(JsonView::Null) => Some(None),
        Some(JsonView::String(s)) => Some(Some(s)),
        _ => None,
    }
}

/// An optional boolean: absent or null reads as unset, a boolean as itself, anything else
/// does not read.
pub open spec fn opt_flag(value: Option<JsonView>) -> Option<Option<bool>> {
    match value {
        None => Some(None),
        Some(JsonView::Null) => Some(None),
        Some(JsonView::Bool(b)) => Some(Some(b)),
        _ => None,
    }
}

/// The integer that a number holds, where it is whole and fits in 64 bits with a sign.
pub open spec fn whole(n: JsonNumber) -> Option<i64> {
    match n {
        JsonNumber::Signed(i) => Some(i),
        JsonNumber::Unsigned(u) => if u <= i64::MAX {
            Some(u as i64)
        } else {
            None
        },
        JsonNumber::Float(_) => None,
    }
}

/// An optional integer: absent or null reads as unset, a whole number that fits as itself,
/// anything else does not read.
pub open spec fn opt_whole(value: Option<JsonView>) -> Option<Option<i64>> {
    match value {
        None => Some(None),
        Some(JsonView::Null) => Some(None),
        Some(JsonView::Number(n)) => match whole(n) {
            Some(i) => Some(Some(i)),
            None => None,
        },
        _ => None,
    }
}

/// An optional nested object: absent or null reads as unset, an object as itself, anything
/// else does not read.
pub open spec fn opt_nested(value: Option<JsonView>) -> Option<Option<ObjectView>> {
    match value {
        None => Some(None),
        Some(JsonView::Null) => Some(None),
        Some(JsonView::Object(entries)) => Some(Some(entries)),
        _ => None,
    }
}

impl JsonNumber {
    /// The integer that the number holds, where it is whole and fits.
    pub fn as_i64(&self) -> (r: Option<i64>)
        ensures
            r == whole(*self),
    {
        match self {
            JsonNumber::Signed(i) => Some(*i),
            JsonNumber::Unsigned(u) => {
                if *u <= 0x7fff_ffff_ffff_ffffu64 {
                    Some(*u as i64)
                } else {
                    None
                }
            },
            JsonNumber::Float(_) => None,
        }
    }
}

impl JsonValue {
    /// An object is its entries.
    pub proof fn lemma_object_view(o: JsonObject)
        ensures
            JsonValue::Object(o)@ == JsonView::Object(o@),
    {
        assert(JsonValue::Object(o)@->Object_0 =~= o@);
    }

    /// An array is its items.
    pub proof fn lemma_array_view(items: Vec<JsonValue>)
        ensures
            JsonValue::Array(items)@ == JsonView::Array(items.deep_view()),
    {
        assert(JsonValue::Array(items)@->Array_0 =~= items.deep_view());
    }

    /// A copy of the value, part by part.
    pub fn deep_clone(&self) -> (r: JsonValue)
        ensures
            r@ == self@,
        decreases self,
    {
        match self {
            JsonValue::Null => JsonValue::Null,
            JsonValue::Bool(b) => JsonValue::Bool(*b),
            JsonValue::Number(n) => JsonValue::Number(*n),
            JsonValue::String(s) => JsonValue::String(s.clone()),
            JsonValue::Array(items) => {
                let mut out: Vec<JsonValue> = Vec::new();
                let mut i: usize = 0;
                while i < items.len()
                    invariant
                        i <= items.len(),
                        out.len() == i,
                        forall|j: int| 0 <= j < i ==> out[j]@ == items[j]@,
                        *self == JsonValue::Array(*items),
                    decreases items.len() - i,
                {
                    proof {
                        vstd::std_specs::vec::axiom_vec_index_decreases(*items, i as int);
                        assert(decreases_to!(*self => self->Array_0));
                    }
                    out.push(items[i].deep_clone());
                    i += 1;
                }
                let r = JsonValue::Array(out);
                assert(r@->Array_0 =~= self@->Array_0);
                r
            },
            JsonValue::Object(o) => {
                let mut out: Vec<(String, JsonValue)> = Vec::new();
                let mut i: usize = 0;
                while i < o.entries.len()
                    invariant
                        i <= o.entries.len(),
                        out.len() == i,
                        forall|j: int|
                            0 <= j < i ==> out[j].0@ == o.entries[j].0@ && out[j].1@
                                == o.entries[j].1@,
                        *self == JsonValue::Object(*o),
                    decreases o.entries.len() - i,
                {
                    proof {
                        vstd::std_specs::vec::axiom_vec_index_decreases(o.entries, i as int);
                        assert(decreases_to!(*self => self->Object_0));
                    }
                    out.push((o.entries[i].0.clone(), o.entries[i].1.deep_clone()));
                    i += 1;
                }
                let r = JsonValue::Object(JsonObject { entries: out });
                assert(r@->Object_0 =~= self@->Object_0);
                r
            },
        }
    }

    /// Reads the value as a text that must be there.
    pub fn text(&self) -> (r: Option<String>)
        ensures
            r.deep_view() == req_text(Some(self@)),
    {
        match self {
            JsonValue::String(s) => Some(s.clone()),
            _ => None,
        }
    }

    /// Reads the value as a marker that must be `true`.
    pub fn truth(&self) -> (r: Option<bool>)
        ensures
            r == req_true(Some(self@)),
    {
        match self {
            JsonValue::Bool(true) => Some(true),
            _ => None,
        }
    }

    /// Reads the value as a boolean that must be there.
    pub fn flag(&self) -> (r: Option<bool>)
        ensures
            r == req_flag(Some(self@)),
    {
        match self {
            JsonValue::Bool(b) => Some(*b),
            _ => None,
        }
    }

    /// Reads the value as a list that must be there.
    pub fn items(&self) -> (r: Option<&Vec<JsonValue>>)
        ensures
            r.deep_view() == req_items(Some(self@)),
    {
        match self {
            JsonValue::Array(items) => {
                proof {
                    JsonValue::lemma_array_view(*items);
                }
                Some(items)
            },
            _ => None,
        }
    }

    /// Reads the value as an optional text.
    pub fn opt_text(&self) -> (r: Option<Option<String>>)
        ensures
            r.deep_view() == opt_text(Some(self@)),
    {
        match self {
            JsonValue::Null => Some(None),
            JsonValue::String(s) => Some(Some(s.clone())),
            _ => None,
        }
    }

    /// Reads the value as an optional boolean.
    pub fn opt_flag(&self) -> (r: Option<Option<bool>>)
        ensures
            r == opt_flag(Some(self@)),
    {
        match self {
            JsonValue::Null => Some(None),
            JsonValue::Bool(b) => Some(Some(*b)),
            _ => None,
        }
    }

    /// Reads the value as an optional integer.
    pub fn opt_whole(&self) -> (r: Option<Option<i64>>)
        ensures
            r == opt_whole(Some(self@)),
    {
        match self {
            JsonValue::Null => Some(None),
            JsonValue::Number(n) => match n.as_i64() {
                Some(i) => Some(Some(i)),
                None => None,
            },
            _ => None,
        }
    }

    /// Reads the value as an optional nested object.
    pub fn opt_nested(&self) -> (r: Option<Option<JsonObject>>)
        ensures
            r.deep_view() == opt_nested(Some(self@)),
    {
        match self {
            JsonValue::Null => Some(None),
            JsonValue::Object(o) => {
                proof {
                    JsonValue::lemma_object_view(*o);
                }
                Some(Some(o.deep_clone()))
            },
            _ => None,
        }
    }
}

impl JsonObject {
    /// The object without entries.
    pub fn new() -> (r: JsonObject)
        ensures
            r@ == Seq::<(Seq<char>, JsonView)>::empty(),
    {
        JsonObject { entries: Vec::new() }
    }

    /// Adds an entry at the end.
    pub fn push(&mut self, name: String, value: JsonValue)
        ensures
            final(self)@ == old(self)@.push((name@, value@)),
    {
        self.entries.push((name, value));
    }

    /// A copy of the object, entry by entry.
    pub fn deep_clone(&self) -> (r: JsonObject)
        ensures
            r@ == self@,
    {
        let mut out: Vec<(String, JsonValue)> = Vec::new();
        let mut i: usize = 0;
        while i < self.entries.len()
            invariant
                i <= self.entries.len(),
                out.len() == i,
                forall|j: int|
                    0 <= j < i ==> out[j].0@ == self.entries[j].0@ && out[j].1@
                        == self.entries[j].1@,
            decreases self.entries.len() - i,
        {
            out.push((self.entries[i].0.clone(), self.entries[i].1.deep_clone()));
            i += 1;
        }
        JsonObject { entries: out }
    }

    /// The value of the last entry named `key`, if there is such an entry.
    pub fn get(&self, key: &str) -> (r: Option<&JsonValue>)
        ensures
            r.deep_view() == field(self@, key@),
    {
        let mut i: usize = self.entries.len();
        assert(self@.subrange(0, i as int) =~= self@);
        while i > 0
            invariant
                i <= self.entries.len(),
                field(self@, key@) == field(self@.subrange(0, i as int), key@),
            decreases i,
        {
            i -= 1;
            assert(self@.subrange(0, i + 1).drop_last() =~= self@.subrange(0, i as int));
            if str_eq(self.entries[i].0.as_str(), key) {
                return Some(&self.entries[i].1);
            }
        }
        None
    }

    /// Reads a text that must be there.
    pub fn text(&self, key: &str) -> (r: Option<String>)
        ensures
            r.deep_view() == req_text(field(self@, key@)),
    {
        match self.get(key) {
            Some(v) => v.text(),
            None => None,
        }
    }

    /// Reads a marker that must be there and must be `true`.
    pub fn truth(&self, key: &str) -> (r: Option<bool>)
        ensures
            r == req_true(field(self@, key@)),
    {
        match self.get(key) {
            Some(v) => v.truth(),
            None => None,
        }
    }

    /// Reads a boolean that must be there.
    pub fn flag(&self, key: &str) -> (r: Option<bool>)
        ensures
            r == req_flag(field(self@, key@)),
    {
        match self.get(key) {
            Some(v) => v.flag(),
            None => None,
        }
    }

    /// Reads a list that must be there.
    pub fn items(&self, key: &str) -> (r: Option<&Vec<JsonValue>>)
        ensures
            r.deep_view() == req_items(field(self@, key@)),
    {
        match self.get(key) {
            Some(v) => v.items(),
            None => None,
        }
    }

    /// Reads an optional text.
    pub fn opt_text(&self, key: &str) -> (r: Option<Option<String>>)
        ensures
            r.deep_view() == opt_text(field(self@, key@)),
    {
        match self.get(key) {
            Some(v) => v.opt_text(),
            None => Some(None),
        }
    }

    /// Reads an optional boolean.
    pub fn opt_flag(&self, key: &str) -> (r: Option<Option<bool>>)
        ensures
            r == opt_flag(field(self@, key@)),
    {
        match self.get(key) {
            Some(v) => v.opt_flag(),
            None => Some(None),
        }
    }

    /// Reads an optional integer.
    pub fn opt_whole(&self, key: &str) -> (r: Option<Option<i64>>)
        ensures
            r == opt_whole(field(self@, key@)),
    {
        match self.get(key) {
            Some(v) => v.opt_whole(),
            None => Some(None),
        }
    }

    /// Reads an optional nested object.
    pub fn opt_nested(&self, key: &str) -> (r: Option<Option<JsonObject>>)
        ensures
            r.deep_view() == opt_nested(field(self@, key@)),
    {
        match self.get(key) {
            Some(v) => v.opt_nested(),
            None => Some(None),
        }
    }
}

} // verus!
