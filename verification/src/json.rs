//! JSON documents as values.
use crate::text;
use vstd::prelude::*;

verus! {

/// `serde_json::Number`, which this library only carries.
#[verifier::external_type_specification]
#[verifier::external_body]
pub struct ExNumber(serde_json::Number);

/// `serde_json::Number::clone`: the same number again.
pub assume_specification[ <serde_json::Number as Clone>::clone ](
    n: &serde_json::Number,
) -> (r: serde_json::Number)
    ensures
        r == *n,
;

/// A JSON document.
#[derive(Debug, Eq, PartialEq)]
pub enum Json {
    Null,
    Bool(bool),
    Int(i64),
    UInt(u64),
    /// A number that is no integer of 64 bits.
    Num(serde_json::Number),
    Str(String),
    Arr(Vec<Json>),
    /// The fields in the order in which they are written.
    Obj(Vec<(String, Json)>),
}

/// The model of a JSON document.
pub enum JsonView {
    Null,
    Bool(bool),
    /// A number that is an `i64`.
    Int(int),
    /// A number that is a `u64` and no `i64`.
    UInt(int),
    Num(serde_json::Number),
    Str(Seq<char>),
    Arr(Seq<JsonView>),
    Obj(Seq<(Seq<char>, JsonView)>),
}

/// The models of the documents of a list.
pub open spec fn models(items: Seq<Json>) -> Seq<JsonView> {
    items.map_values(|j: Json| j.model())
}

/// The texts of a list, as a document.
pub open spec fn text_items(list: Seq<Seq<char>>) -> JsonView {
    JsonView::Arr(list.map_values(|s: Seq<char>| JsonView::Str(s)))
}

/// A text that may be absent, as a document.
pub open spec fn opt_item(s: Option<Seq<char>>) -> JsonView {
    match s {
        Some(t) => JsonView::Str(t),
        None => JsonView::Null,
    }
}

/// The value of the first field named `key` from position `i` on.
pub open spec fn field_from(
    fields: Seq<(Seq<char>, JsonView)>,
    key: Seq<char>,
    i: int,
) -> Option<JsonView>
    decreases fields.len() - i,
{
    if i < 0 || i >= fields.len() {
        None
    } else if fields[i].0 == key {
        Some(fields[i].1)
    } else {
        field_from(fields, key, i + 1)
    }
}

/// The value that a document has under `key`, if it is an object with such a field.
pub open spec fn field(doc: JsonView, key: Seq<char>) -> Option<JsonView> {
    match doc {
        JsonView::Obj(fields) => field_from(fields, key, 0),
        _ => None,
    }
}

/// The text that a document has under `key`, if it is an object with such a field.
pub open spec fn text_field(doc: JsonView, key: Seq<char>) -> Option<Seq<char>> {
    match field(doc, key) {
        Some(JsonView::Str(s)) => Some(s),
        _ => None,
    }
}

/// The integer that a document has under `key`, if it is an object with such a field.
pub open spec fn int_field(doc: JsonView, key: Seq<char>) -> Option<int> {
    match field(doc, key) {
        Some(JsonView::Int(n)) => Some(n),
        _ => None,
    }
}

/// The truth value that a document has under `key`, if it is an object with such a field.
pub open spec fn bool_field(doc: JsonView, key: Seq<char>) -> Option<bool> {
    match field(doc, key) {
        Some(JsonView::Bool(b)) => Some(b),
        _ => None,
    }
}

/// The list that a document has under `key`, if it is an object with such a field.
pub open spec fn list_field(doc: JsonView, key: Seq<char>) -> Option<Seq<JsonView>> {
    match field(doc, key) {
        Some(JsonView::Arr(items)) => Some(items),
        _ => None,
    }
}

/// The value that a document has under `key`; null where it has none.
pub open spec fn at(doc: JsonView, key: Seq<char>) -> JsonView {
    match field(doc, key) {
        Some(v) => v,
        None => JsonView::Null,
    }
}

/// The value that a document has under `inner` of its field `outer`.
pub open spec fn field2(doc: JsonView, outer: Seq<char>, inner: Seq<char>) -> Option<JsonView> {
    match field(doc, outer) {
        Some(v) => field(v, inner),
        None => None,
    }
}

/// The text that a document has under `key`; the empty text where it has none.
pub open spec fn text_or_empty(doc: JsonView, key: Seq<char>) -> Seq<char> {
    match text_field(doc, key) {
        Some(s) => s,
        None => Seq::empty(),
    }
}

/// The fields with the first one named `key`, from position `i` on, set to `value`; with the
/// field at the end where none is.
pub open spec fn with_field_from(
    fields: Seq<(Seq<char>, JsonView)>,
    key: Seq<char>,
    value: JsonView,
    i: int,
) -> Seq<(Seq<char>, JsonView)>
    decreases fields.len() - i,
{
    if i < 0 || i >= fields.len() {
        fields.push((key, value))
    } else if fields[i].0 == key {
        fields.update(i, (key, value))
    } else {
        with_field_from(fields, key, value, i + 1)
    }
}

/// An object with its field `key` set to `value`; a document of another kind as it is.
pub open spec fn with_field(doc: JsonView, key: Seq<char>, value: JsonView) -> JsonView {
    match doc {
        JsonView::Obj(fields) => JsonView::Obj(with_field_from(fields, key, value, 0)),
        _ => doc,
    }
}

impl Json {
    /// The model of the document.
    pub open spec fn model(&self) -> JsonView
        decreases self,
    {
        match self {
            Json::Null => JsonView::Null,
            Json::Bool(b) => JsonView::Bool(*b),
            Json::Int(n) => JsonView::Int(*n as int),
            Json::UInt(n) => if *n <= i64::MAX {
                JsonView::Int(*n as int)
            } else {
                JsonView::UInt(*n as int)
            },
            Json::Num(n) => JsonView::Num(*n),
            Json::Str(s) => JsonView::Str(s@),
            Json::Arr(items) => JsonView::Arr(
                Seq::new(
                    items@.len(),
                    |i: int|
                        if 0 <= i < items@.len() {
                            items@[i].model()
                        } else {
                            JsonView::Null
                        },
                ),
            ),
            Json::Obj(fields) => JsonView::Obj(
                Seq::new(
                    fields@.len(),
                    |i: int|
                        if 0 <= i < fields@.len() {
                            (fields@[i].0@, fields@[i].1.model())
                        } else {
                            (Seq::empty(), JsonView::Null)
                        },
                ),
            ),
        }
    }

    /// A copy of the document.
    pub fn copy(&self) -> (r: Json)
        ensures
            r.model() == self.model(),
        decreases self,
    {
        match self {
            Json::Null => Json::Null,
            Json::Bool(b) => Json::Bool(*b),
            Json::Int(n) => Json::Int(*n),
            Json::UInt(n) => Json::UInt(*n),
            Json::Num(n) => Json::Num(n.clone()),
            Json::Str(s) => Json::Str(s.clone()),
            Json::Arr(items) => {
                let mut out: Vec<Json> = Vec::new();
                let mut i: usize = 0;
                while i < items.len()
                    invariant
                        i <= items.len(),
                        out.len() == i,
                        *self matches Json::Arr(v) && v == *items,
                        forall|j: int|
                            0 <= j < i ==> #[trigger] out@[j].model() == items@[j].model(),
                    decreases items.len() - i,
                {
                    assert(decreases_to!(self => items@[i as int]));
                    out.push(items[i].copy());
                    i = i + 1;
                }
                let r = Json::Arr(out);
                assert forall|j: int| 0 <= j < items@.len() implies r.model()->Arr_0[j]
                    == self.model()->Arr_0[j] by {
                    assert(out@[j].model() == items@[j].model());
                }
                assert(r.model()->Arr_0 =~= self.model()->Arr_0);
                r
            },
            Json::Obj(fields) => {
                let mut out: Vec<(String, Json)> = Vec::new();
                let mut i: usize = 0;
                while i < fields.len()
                    invariant
                        i <= fields.len(),
                        out.len() == i,
                        *self matches Json::Obj(v) && v == *fields,
                        forall|j: int|
                            0 <= j < i ==> #[trigger] out@[j].1.model() == fields@[j].1.model()
                                && out@[j].0@ == fields@[j].0@,
                    decreases fields.len() - i,
                {
                    assert(decreases_to!(self => fields@[i as int].1));
                    out.push((fields[i].0.clone(), fields[i].1.copy()));
                    i = i + 1;
                }
                let r = Json::Obj(out);
                assert forall|j: int| 0 <= j < fields@.len() implies r.model()->Obj_0[j]
                    == self.model()->Obj_0[j] by {
                    assert(out@[j].1.model() == fields@[j].1.model());
                }
                assert(r.model()->Obj_0 =~= self.model()->Obj_0);
                r
            },
        }
    }

    /// The value of the field `key`.
    pub fn get(&self, key: &str) -> (r: Option<&Json>)
        ensures
            match r {
                Some(v) => field(self.model(), key@) == Some(v.model()),
                None => field(self.model(), key@) is None,
            },
    {
        match self {
            Json::Obj(fields) => {
                let ghost all = self.model()->Obj_0;
                let mut i: usize = 0;
                while i < fields.len()
                    invariant
                        i <= fields.len(),
                        *self matches Json::Obj(v) && v == *fields,
                        all == self.model()->Obj_0,
                        field(self.model(), key@) == field_from(all, key@, i as int),
                    decreases fields.len() - i,
                {
                    assert(all[i as int] == (fields@[i as int].0@, fields@[i as int].1.model()));
                    if text::same(fields[i].0.as_str(), key) {
                        return Some(&fields[i].1);
                    }
                    i = i + 1;
                }
                None
            },
            _ => None,
        }
    }

    /// The text of a text document.
    pub fn as_str(&self) -> (r: Option<&str>)
        ensures
            text::opt_str(r) == (match self.model() {
                JsonView::Str(s) => Some(s),
                _ => None,
            }),
    {
        match self {
            Json::Str(s) => Some(s.as_str()),
            _ => None,
        }
    }

    /// The integer of an integer document.
    pub fn as_i64(&self) -> (r: Option<i64>)
        ensures
            match r {
                Some(n) => self.model() == JsonView::Int(n as int),
                None => !(self.model() is Int),
            },
    {
        match self {
            Json::Int(n) => Some(*n),
            Json::UInt(n) => if *n <= 0x7fff_ffff_ffff_ffff {
                Some(*n as i64)
            } else {
                None
            },
            _ => None,
        }
    }

    /// The text of the field `key`.
    pub fn get_str(&self, key: &str) -> (r: Option<&str>)
        ensures
            text::opt_str(r) == text_field(self.model(), key@),
    {
        match self.get(key) {
            Some(v) => v.as_str(),
            None => None,
        }
    }

    /// The integer of the field `key`.
    pub fn get_i64(&self, key: &str) -> (r: Option<i64>)
        ensures
            match r {
                Some(n) => int_field(self.model(), key@) == Some(n as int),
                None => int_field(self.model(), key@) is None,
            },
    {
        match self.get(key) {
            Some(v) => v.as_i64(),
            None => None,
        }
    }

    /// The truth value of the field `key`.
    pub fn get_bool(&self, key: &str) -> (r: Option<bool>)
        ensures
            r == bool_field(self.model(), key@),
    {
        match self.get(key) {
            Some(Json::Bool(b)) => Some(*b),
            _ => None,
        }
    }

    /// The list of the field `key`.
    pub fn get_list(&self, key: &str) -> (r: Option<&Vec<Json>>)
        ensures
            match r {
                Some(items) => list_field(self.model(), key@) == Some(models(items@)),
                None => list_field(self.model(), key@) is None,
            },
    {
        match self.get(key) {
            Some(v) => match v {
                Json::Arr(items) => {
                    assert(v.model()->Arr_0 =~= models(items@));
                    Some(items)
                },
                _ => None,
            },
            None => None,
        }
    }

    /// The value under `inner` of the field `outer`.
    pub fn get2(&self, outer: &str, inner: &str) -> (r: Option<&Json>)
        ensures
            match r {
                Some(v) => field2(self.model(), outer@, inner@) == Some(v.model()),
                None => field2(self.model(), outer@, inner@) is None,
            },
    {
        match self.get(outer) {
            Some(v) => v.get(inner),
            None => None,
        }
    }

    /// The text of the field `key`; the empty text where there is none.
    pub fn text_or_empty(&self, key: &str) -> (r: &str)
        ensures
            r@ == text_or_empty(self.model(), key@),
    {
        match self.get_str(key) {
            Some(s) => s,
            None => {
                proof {
                    reveal_strlit("");
                    assert(""@ =~= Seq::empty());
                }
                ""
            },
        }
    }

    /// Whether the value under `key` is the given text, or null where no text is given.
    pub fn at_is(&self, key: &str, wanted: Option<&str>) -> (r: bool)
        ensures
            r == (at(self.model(), key@) == opt_item(text::opt_str(wanted))),
    {
        match self.get(key) {
            None => wanted.is_none(),
            Some(v) => match (v, wanted) {
                (Json::Null, None) => true,
                (Json::Str(s), Some(w)) => text::same(s.as_str(), w),
                _ => false,
            },
        }
    }

    /// The document with its field `key` set to `value`, where it is an object.
    pub fn with(self, key: &str, value: Json) -> (r: Json)
        ensures
            r.model() == with_field(self.model(), key@, value.model()),
    {
        let ghost before = self.model();
        match self {
            Json::Obj(fields) => {
                let mut fields = fields;
                let ghost all = before->Obj_0;
                let mut i: usize = 0;
                let n: usize = fields.len();
                while i < n && !text::same(fields[i].0.as_str(), key)
                    invariant
                        i <= n,
                        n == fields@.len(),
                        all.len() == n,
                        forall|j: int|
                            0 <= j < n ==> #[trigger] all[j] == (
                                fields@[j].0@,
                                fields@[j].1.model(),
                            ),
                        with_field_from(all, key@, value.model(), 0) == with_field_from(
                            all,
                            key@,
                            value.model(),
                            i as int,
                        ),
                    decreases n - i,
                {
                    assert(all[i as int].0 == fields@[i as int].0@);
                    i = i + 1;
                }
                let ghost wanted = with_field_from(all, key@, value.model(), i as int);
                if i < n {
                    assert(all[i as int].0 == fields@[i as int].0@);
                    fields[i] = (key.to_owned(), value);
                } else {
                    fields.push((key.to_owned(), value));
                }
                let r = Json::Obj(fields);
                assert(r.model()->Obj_0 =~= wanted);
                r
            },
            other => other,
        }
    }
}

/// A text as a document.
pub fn text(s: &str) -> (r: Json)
    ensures
        r.model() == JsonView::Str(s@),
{
    Json::Str(s.to_owned())
}

/// An integer as a document.
pub fn number(n: i64) -> (r: Json)
    ensures
        r.model() == JsonView::Int(n as int),
{
    Json::Int(n)
}

/// A count as a document.
pub open spec fn count_item(n: usize) -> JsonView {
    if n <= i64::MAX {
        JsonView::Int(n as int)
    } else {
        JsonView::UInt(n as int)
    }
}

/// A count as a document.
pub fn count(n: usize) -> (r: Json)
    ensures
        r.model() == count_item(n),
{
    if n as u64 <= 0x7fff_ffff_ffff_ffff {
        Json::Int(n as i64)
    } else {
        Json::UInt(n as u64)
    }
}

/// A truth value as a document.
pub fn flag(b: bool) -> (r: Json)
    ensures
        r.model() == JsonView::Bool(b),
{
    Json::Bool(b)
}

/// The list of the documents of rows, each of which `document` makes of its row.
pub(crate) fn list_of<T, F: Fn(&T) -> Json>(
    rows: &[T],
    document: F,
    Ghost(doc): Ghost<spec_fn(T) -> JsonView>,
) -> (r: Json)
    requires
        forall|t: &T| call_requires(document, (t,)),
        forall|t: &T, d: Json| call_ensures(document, (t,), d) ==> d.model() == doc(*t),
    ensures
        r.model() == JsonView::Arr(rows@.map_values(doc)),
{
    let mut out: Vec<Json> = Vec::new();
    let mut i: usize = 0;
    while i < rows.len()
        invariant
            i <= rows.len(),
            out.len() == i,
            forall|t: &T| call_requires(document, (t,)),
            forall|t: &T, d: Json| call_ensures(document, (t,), d) ==> d.model() == doc(*t),
            forall|j: int| 0 <= j < i ==> #[trigger] out@[j].model() == doc(rows@[j]),
        decreases rows.len() - i,
    {
        out.push(document(&rows[i]));
        i = i + 1;
    }
    assert(models(out@) =~= rows@.map_values(doc));
    list(out)
}

/// The null document.
pub fn null() -> (r: Json)
    ensures
        r.model() == JsonView::Null,
{
    Json::Null
}

/// A text that may be absent as a document.
pub fn opt_text(s: Option<&str>) -> (r: Json)
    ensures
        r.model() == opt_item(text::opt_str(s)),
{
    match s {
        Some(t) => Json::Str(t.to_owned()),
        None => Json::Null,
    }
}

/// A list of documents as a document.
pub fn list(items: Vec<Json>) -> (r: Json)
    ensures
        r.model() == JsonView::Arr(models(items@)),
{
    let r = Json::Arr(items);
    assert(r.model()->Arr_0 =~= models(items@));
    r
}

/// A list of texts as a document.
pub fn text_list(items: &[String]) -> (r: Json)
    ensures
        r.model() == text_items(text::texts(items@)),
{
    let mut out: Vec<Json> = Vec::new();
    let mut i: usize = 0;
    while i < items.len()
        invariant
            i <= items.len(),
            out.len() == i,
            forall|j: int| 0 <= j < i ==> #[trigger] out@[j].model() == JsonView::Str(items@[j]@),
        decreases items.len() - i,
    {
        out.push(text(items[i].as_str()));
        i = i + 1;
    }
    let r = list(out);
    assert(models(out@) =~= text_items(text::texts(items@))->Arr_0);
    r
}

/// An object that is being written.
pub struct Doc {
    pub fields: Vec<(String, Json)>,
}

impl View for Doc {
    type V = Seq<(Seq<char>, JsonView)>;

    open spec fn view(&self) -> Seq<(Seq<char>, JsonView)> {
        Seq::new(self.fields@.len(), |i: int| (self.fields@[i].0@, self.fields@[i].1.model()))
    }
}

/// No fields.
pub open spec fn no_fields() -> Seq<(Seq<char>, JsonView)> {
    Seq::empty()
}

impl Doc {
    /// An object without fields.
    pub fn new() -> (r: Doc)
        ensures
            r@ == no_fields(),
    {
        let r = Doc { fields: Vec::new() };
        assert(r@ =~= no_fields());
        r
    }

    /// The object with one more field at its end.
    pub fn put(self, key: &str, value: Json) -> (r: Doc)
        ensures
            r@ == self@.push((key@, value.model())),
    {
        let mut fields = self.fields;
        fields.push((key.to_owned(), value));
        let r = Doc { fields };
        assert(r@ =~= self@.push((key@, value.model())));
        r
    }

    /// The object as a document.
    pub fn json(self) -> (r: Json)
        ensures
            r.model() == JsonView::Obj(self@),
    {
        let r = Json::Obj(self.fields);
        assert(r.model()->Obj_0 =~= self@);
        r
    }
}

proof fn field_found(fields: Seq<(Seq<char>, JsonView)>, key: Seq<char>, from: int, i: int)
    requires
        0 <= from <= i < fields.len(),
        fields[i].0 == key,
        forall|j: int| from <= j < i ==> (#[trigger] fields[j]).0 != key,
    ensures
        field_from(fields, key, from) == Some(fields[i].1),
    decreases i - from,
{
    if from < i {
        assert(fields[from].0 != key);
        field_found(fields, key, from + 1, i);
    }
}

/// The value under a key is that of the first field with the key.
pub proof fn field_is_first(fields: Seq<(Seq<char>, JsonView)>, key: Seq<char>, i: int)
    requires
        0 <= i < fields.len(),
        fields[i].0 == key,
        forall|j: int| 0 <= j < i ==> (#[trigger] fields[j]).0 != key,
    ensures
        field(JsonView::Obj(fields), key) == Some(fields[i].1),
        at(JsonView::Obj(fields), key) == fields[i].1,
{
    field_found(fields, key, 0, i);
}

proof fn field_missing(fields: Seq<(Seq<char>, JsonView)>, key: Seq<char>, from: int)
    requires
        0 <= from <= fields.len(),
        forall|j: int| from <= j < fields.len() ==> (#[trigger] fields[j]).0 != key,
    ensures
        field_from(fields, key, from) is None,
    decreases fields.len() - from,
{
    if from < fields.len() {
        assert(fields[from].0 != key);
        field_missing(fields, key, from + 1);
    }
}

/// A document has no value under a key that none of its fields has.
pub proof fn field_is_absent(fields: Seq<(Seq<char>, JsonView)>, key: Seq<char>)
    requires
        forall|j: int| 0 <= j < fields.len() ==> (#[trigger] fields[j]).0 != key,
    ensures
        field(JsonView::Obj(fields), key) is None,
        at(JsonView::Obj(fields), key) == JsonView::Null,
{
    field_missing(fields, key, 0);
}

proof fn set_field_from(
    fields: Seq<(Seq<char>, JsonView)>,
    key: Seq<char>,
    value: JsonView,
    other: Seq<char>,
    i: int,
)
    requires
        0 <= i <= fields.len(),
        forall|j: int| 0 <= j < i ==> (#[trigger] fields[j]).0 != key,
    ensures
        field_from(with_field_from(fields, key, value, i), key, 0) == Some(value),
        other != key ==> field_from(with_field_from(fields, key, value, i), other, 0) == field_from(
            fields,
            other,
            0,
        ),
    decreases fields.len() - i,
{
    let set = with_field_from(fields, key, value, i);
    if i == fields.len() {
        assert(set == fields.push((key, value)));
        field_found(set, key, 0, i);
        if other != key {
            same_but_for_one(fields, set, other, key, 0);
        }
    } else if fields[i].0 == key {
        assert(set == fields.update(i, (key, value)));
        field_found(set, key, 0, i);
        if other != key {
            same_but_for_one(fields, set, other, key, 0);
        }
    } else {
        set_field_from(fields, key, value, other, i + 1);
    }
}

proof fn same_but_for_one(
    a: Seq<(Seq<char>, JsonView)>,
    b: Seq<(Seq<char>, JsonView)>,
    key: Seq<char>,
    odd: Seq<char>,
    i: int,
)
    requires
        key != odd,
        0 <= i <= a.len() <= b.len(),
        forall|j: int| 0 <= j < a.len() ==> #[trigger] a[j] == b[j] || (a[j].0 == odd && b[j].0 == odd),
        forall|j: int| a.len() <= j < b.len() ==> (#[trigger] b[j]).0 == odd,
    ensures
        field_from(b, key, i) == field_from(a, key, i),
    decreases a.len() - i,
{
    if i < a.len() {
        assert(a[i] == b[i] || (a[i].0 == odd && b[i].0 == odd));
        same_but_for_one(a, b, key, odd, i + 1);
    } else {
        field_missing(b, key, i);
    }
}

/// A field that was set is read as it was set, and every other field as it was.
pub proof fn set_fields_are_read(
    doc: JsonView,
    key: Seq<char>,
    value: JsonView,
    other: Seq<char>,
)
    requires
        doc is Obj,
    ensures
        with_field(doc, key, value) is Obj,
        field(with_field(doc, key, value), key) == Some(value),
        other != key ==> field(with_field(doc, key, value), other) == field(doc, other),
{
    set_field_from(doc->Obj_0, key, value, other, 0);
}

/// What is read of a field depends on its kind: a text, an integer, a truth value and a list are read
/// as such, and a field of another kind, or none, is read as none.
pub proof fn fields_are_read_by_kind(fields: Seq<(Seq<char>, JsonView)>, key: Seq<char>, i: int)
    requires
        0 <= i < fields.len(),
        fields[i].0 == key,
        forall|j: int| 0 <= j < i ==> (#[trigger] fields[j]).0 != key,
    ensures
        text_field(JsonView::Obj(fields), key) == (match fields[i].1 {
            JsonView::Str(s) => Some(s),
            _ => None,
        }),
        int_field(JsonView::Obj(fields), key) == (match fields[i].1 {
            JsonView::Int(n) => Some(n),
            _ => None,
        }),
        bool_field(JsonView::Obj(fields), key) == (match fields[i].1 {
            JsonView::Bool(b) => Some(b),
            _ => None,
        }),
        list_field(JsonView::Obj(fields), key) == (match fields[i].1 {
            JsonView::Arr(items) => Some(items),
            _ => None,
        }),
        text_or_empty(JsonView::Obj(fields), key) == (match fields[i].1 {
            JsonView::Str(s) => s,
            _ => Seq::empty(),
        }),
{
    field_is_first(fields, key, i);
}

/// A count is told as the number it is, whatever its size.
pub proof fn counts_are_told_as_numbers(n: usize)
    ensures
        n <= i64::MAX ==> count_item(n) == JsonView::Int(n as int),
        n > i64::MAX ==> count_item(n) == JsonView::UInt(n as int),
{
}

/// An absent text is null, and a list of texts holds each text in its place.
pub proof fn texts_are_told(list: Seq<Seq<char>>, i: int)
    requires
        0 <= i < list.len(),
    ensures
        opt_item(None) == JsonView::Null,
        opt_item(Some(list[i])) == JsonView::Str(list[i]),
        text_items(list) matches JsonView::Arr(items) && items.len() == list.len() && items[i]
            == JsonView::Str(list[i]),
{
}

/// A field of a field is read where both are there; what is not there is null.
pub proof fn nested_fields_are_read(doc: JsonView, inside: JsonView, outer: Seq<char>, inner: Seq<char>)
    ensures
        field(doc, outer) == Some(inside) ==> field2(doc, outer, inner) == field(inside, inner) && at(
            doc,
            outer,
        ) == inside,
        field(doc, outer) is None ==> field2(doc, outer, inner) is None && at(doc, outer)
            == JsonView::Null,
{
}

} // verus!
