//! JSON values: requests carry their parameters and responses their data in this form.
use vstd::prelude::*;

verus! {

/// A JSON value. A number that is no 64-bit integer is kept as its text.
#[derive(Debug, PartialEq)]
pub enum Json {
    Null,
    Bool(bool),
    U64(u64),
    I64(i64),
    Decimal(String),
    Str(String),
    Arr(Vec<Json>),
    Obj(Vec<(String, Json)>),
}

/// The mathematical value of a [`Json`].
#[verifier::ext_equal]
pub enum JsonV {
    Null,
    Bool(bool),
    Int(int),
    Decimal(Seq<char>),
    Str(Seq<char>),
    Arr(Seq<JsonV>),
    Obj(Seq<(Seq<char>, JsonV)>),
}

pub open spec fn json_view(j: Json) -> JsonV
    decreases j,
{
    match j {
        Json::Null => JsonV::Null,
        Json::Bool(b) => JsonV::Bool(b),
        Json::U64(n) => JsonV::Int(n as int),
        Json::I64(n) => JsonV::Int(n as int),
        Json::Decimal(t) => JsonV::Decimal(t@),
        Json::Str(t) => JsonV::Str(t@),
        Json::Arr(v) => JsonV::Arr(
            Seq::new(
                v@.len(),
                |i: int|
                    if 0 <= i < v@.len() {
                        json_view(v@[i])
                    } else {
                        JsonV::Null
                    },
            ),
        ),
        Json::Obj(v) => JsonV::Obj(
            Seq::new(
                v@.len(),
                |i: int|
                    if 0 <= i < v@.len() {
                        (v@[i].0@, json_view(v@[i].1))
                    } else {
                        (Seq::empty(), JsonV::Null)
                    },
            ),
        ),
    }
}

impl View for Json {
    type V = JsonV;

    open spec fn view(&self) -> JsonV {
        json_view(*self)
    }
}

/// The values of a list of JSON values.
pub open spec fn json_views(v: Seq<Json>) -> Seq<JsonV> {
    v.map_values(|j: Json| j@)
}

impl JsonV {
    /// The value of the first member named `key`, if this is an object that has one.
    pub open spec fn field(self, key: Seq<char>) -> Option<JsonV> {
        match self {
            JsonV::Obj(members) => member(members, key),
            _ => None,
        }
    }

    pub open spec fn text(self) -> Option<Seq<char>> {
        match self {
            JsonV::Str(t) => Some(t),
            _ => None,
        }
    }

    pub open spec fn elements(self) -> Option<Seq<JsonV>> {
        match self {
            JsonV::Arr(v) => Some(v),
            _ => None,
        }
    }

    pub open spec fn truth(self) -> Option<bool> {
        match self {
            JsonV::Bool(b) => Some(b),
            _ => None,
        }
    }

    /// The value as an unsigned 64-bit integer, if it is one.
    pub open spec fn natural(self) -> Option<u64> {
        match self {
            JsonV::Int(n) => if 0 <= n <= u64::MAX {
                Some(n as u64)
            } else {
                None
            },
            _ => None,
        }
    }

    pub open spec fn text_field(self, key: Seq<char>) -> Option<Seq<char>> {
        match self.field(key) {
            Some(v) => v.text(),
            None => None,
        }
    }

    pub open spec fn truth_field(self, key: Seq<char>) -> Option<bool> {
        match self.field(key) {
            Some(v) => v.truth(),
            None => None,
        }
    }

    pub open spec fn natural_field(self, key: Seq<char>) -> Option<u64> {
        match self.field(key) {
            Some(v) => v.natural(),
            None => None,
        }
    }

    /// This object with one more member.
    pub open spec fn with(self, key: Seq<char>, value: JsonV) -> JsonV {
        match self {
            JsonV::Obj(members) => JsonV::Obj(members.push((key, value))),
            _ => self,
        }
    }

    /// This object with the member `key` set to `value`, in the place of the one it had.
    pub open spec fn put(self, key: Seq<char>, value: JsonV) -> JsonV {
        match self {
            JsonV::Obj(members) => JsonV::Obj(put_member(members, key, value)),
            _ => self,
        }
    }

    pub open spec fn object() -> JsonV {
        JsonV::Obj(Seq::empty())
    }

    /// An array of texts.
    pub open spec fn texts(items: Seq<Seq<char>>) -> JsonV {
        JsonV::Arr(items.map_values(|t: Seq<char>| JsonV::Str(t)))
    }

    pub open spec fn optional_text(t: Option<String>) -> JsonV {
        match t {
            Some(s) => JsonV::Str(s@),
            None => JsonV::Null,
        }
    }
}

/// The value of the first member named `key`.
pub open spec fn member(members: Seq<(Seq<char>, JsonV)>, key: Seq<char>) -> Option<JsonV>
    decreases members.len(),
{
    if members.len() == 0 {
        None
    } else if members[0].0 == key {
        Some(members[0].1)
    } else {
        member(members.drop_first(), key)
    }
}

/// The members with the first one named `key` set to `value`, or one more if there is none.
pub open spec fn put_member(
    members: Seq<(Seq<char>, JsonV)>,
    key: Seq<char>,
    value: JsonV,
) -> Seq<(Seq<char>, JsonV)>
    decreases members.len(),
{
    if members.len() == 0 {
        seq![(key, value)]
    } else if members[0].0 == key {
        members.update(0, (key, value))
    } else {
        seq![members[0]] + put_member(members.drop_first(), key, value)
    }
}

/// A member that was set is read back, and the others are as before.
pub proof fn law_put_then_get(
    members: Seq<(Seq<char>, JsonV)>,
    key: Seq<char>,
    value: JsonV,
    other: Seq<char>,
)
    ensures
        member(put_member(members, key, value), key) == Some(value),
        other != key ==> member(put_member(members, key, value), other) == member(members, other),
    decreases members.len(),
{
    let after = put_member(members, key, value);
    if members.len() == 0 {
        assert(after.drop_first() =~= members);
        assert(after[0] == (key, value));
        assert(member(members, other) is None);
    } else if members[0].0 == key {
        assert(after[0] == (key, value));
        assert(after.drop_first() =~= members.drop_first());
    } else {
        law_put_then_get(members.drop_first(), key, value, other);
        assert(after[0] == members[0]);
        assert(after.drop_first() =~= put_member(members.drop_first(), key, value));
    }
}

/// A member that was added to an object without one of that name is read back, and the others
/// are as before.
pub proof fn law_with_then_get(
    object: JsonV,
    key: Seq<char>,
    value: JsonV,
    other: Seq<char>,
)
    requires
        object is Obj,
    ensures
        object.field(key) is None ==> object.with(key, value).field(key) == Some(value),
        other != key ==> object.with(key, value).field(other) == object.field(other),
{
    with_member(object->Obj_0, key, value, key);
    with_member(object->Obj_0, key, value, other);
}

pub proof fn with_member(
    members: Seq<(Seq<char>, JsonV)>,
    key: Seq<char>,
    value: JsonV,
    other: Seq<char>,
)
    ensures
        member(members.push((key, value)), other) == if member(members, other) is None && other
            == key {
            Some(value)
        } else {
            member(members, other)
        },
    decreases members.len(),
{
    let after = members.push((key, value));
    if members.len() == 0 {
        assert(after[0] == (key, value));
        assert(after.drop_first() =~= members);
    } else {
        with_member(members.drop_first(), key, value, other);
        assert(after[0] == members[0]);
        assert(after.drop_first() =~= members.drop_first().push((key, value)));
    }
}

/// Where no two members have one name, each is read by its own.
pub proof fn member_at(members: Seq<(Seq<char>, JsonV)>, i: int)
    requires
        0 <= i < members.len(),
        forall|k: int, l: int|
            0 <= k < l < members.len() ==> (#[trigger] members[k]).0 != (#[trigger] members[l]).0,
    ensures
        member(members, members[i].0) == Some(members[i].1),
    decreases members.len(),
{
    if i > 0 {
        let rest = members.drop_first();
        assert forall|k: int, l: int| 0 <= k < l < rest.len() implies (#[trigger] rest[k]).0 != (
        #[trigger] rest[l]).0 by {
            assert(rest[k] == members[k + 1]);
            assert(rest[l] == members[l + 1]);
        }
        member_at(rest, i - 1);
        assert(members[0].0 != members[i].0);
        assert(rest[i - 1] == members[i]);
    }
}

/// Setting a member that stands at `i`, or past the end, with none of that name before it.
pub proof fn put_at(members: Seq<(Seq<char>, JsonV)>, key: Seq<char>, value: JsonV, i: int)
    requires
        0 <= i <= members.len(),
        forall|k: int| 0 <= k < i ==> (#[trigger] members[k]).0 != key,
        i < members.len() ==> members[i].0 == key,
    ensures
        put_member(members, key, value) == if i < members.len() {
            members.update(i, (key, value))
        } else {
            members.push((key, value))
        },
    decreases i,
{
    if i > 0 {
        let rest = members.drop_first();
        assert forall|k: int| 0 <= k < i - 1 implies (#[trigger] rest[k]).0 != key by {
            assert(rest[k] == members[k + 1]);
        }
        put_at(rest, key, value, i - 1);
        assert(put_member(members, key, value) =~= if i < members.len() {
            members.update(i, (key, value))
        } else {
            members.push((key, value))
        });
    } else if members.len() == 0 {
        assert(put_member(members, key, value) =~= members.push((key, value)));
    }
}

impl Json {
    /// The value of the first member named `key`, if this is an object that has one.
    pub fn field(&self, key: &str) -> (r: Option<&Json>)
        ensures
            match r {
                Some(v) => self@.field(key@) == Some(v@),
                None => self@.field(key@) is None,
            },
    {
        match self {
            Json::Obj(items) => {
                let ghost members = self@->Obj_0;
                assert(members.skip(0) =~= members);
                let mut i: usize = 0;
                while i < items.len()
                    invariant
                        i <= items@.len(),
                        *self == Json::Obj(*items),
                        self@ == JsonV::Obj(members),
                        members.len() == items@.len(),
                        member(members, key@) == member(members.skip(i as int), key@),
                    decreases items.len() - i,
                {
                    let entry = &items[i];
                    assert(members[i as int] == (entry.0@, entry.1@));
                    assert(members.skip(i as int)[0] == members[i as int]);
                    assert(members.skip(i as int).drop_first() =~= members.skip(i + 1));
                    if str_eq(entry.0.as_str(), key) {
                        return Some(&entry.1);
                    }
                    i += 1;
                }
                assert(members.skip(i as int).len() == 0);
                None
            },
            _ => None,
        }
    }

    pub fn as_str(&self) -> (r: Option<&String>)
        ensures
            match r {
                Some(s) => self@.text() == Some(s@),
                None => self@.text() is None,
            },
    {
        match self {
            Json::Str(s) => Some(s),
            _ => None,
        }
    }

    pub fn as_bool(&self) -> (r: Option<bool>)
        ensures
            r == self@.truth(),
    {
        match self {
            Json::Bool(b) => Some(*b),
            _ => None,
        }
    }

    pub fn as_u64(&self) -> (r: Option<u64>)
        ensures
            r == self@.natural(),
    {
        match self {
            Json::U64(n) => Some(*n),
            Json::I64(n) => if *n >= 0 {
                Some(*n as u64)
            } else {
                None
            },
            _ => None,
        }
    }

    /// The text of the member `key`, if it is a string.
    pub fn str_field(&self, key: &str) -> (r: Option<String>)
        ensures
            match r {
                Some(s) => self@.text_field(key@) == Some(s@),
                None => self@.text_field(key@) is None,
            },
    {
        match self.field(key) {
            Some(v) => match v.as_str() {
                Some(s) => Some(s.clone()),
                None => None,
            },
            None => None,
        }
    }

    pub fn bool_field(&self, key: &str) -> (r: Option<bool>)
        ensures
            r == self@.truth_field(key@),
    {
        match self.field(key) {
            Some(v) => v.as_bool(),
            None => None,
        }
    }

    pub fn u64_field(&self, key: &str) -> (r: Option<u64>)
        ensures
            r == self@.natural_field(key@),
    {
        match self.field(key) {
            Some(v) => v.as_u64(),
            None => None,
        }
    }

    /// The empty object.
    pub fn object() -> (r: Json)
        ensures
            r@ == JsonV::object(),
    {
        let r = Json::Obj(Vec::new());
        assert(r@->Obj_0 =~= Seq::empty());
        r
    }

    /// This object with one more member.
    pub fn with(self, key: &str, value: Json) -> (r: Json)
        ensures
            r@ == self@.with(key@, value@),
    {
        match self {
            Json::Obj(items) => {
                let mut items = items;
                let ghost before = items@;
                items.push((key.to_owned(), value));
                let r = Json::Obj(items);
                assert(r@->Obj_0 =~= self@->Obj_0.push((key@, value@)));
                r
            },
            other => other,
        }
    }

    /// This object with the member `key` set to `value`, in the place of the one it had.
    pub fn put(self, key: &str, value: Json) -> (r: Json)
        ensures
            r@ == self@.put(key@, value@),
    {
        match self {
            Json::Obj(items) => {
                let mut items = items;
                let ghost members = self@->Obj_0;
                let mut i: usize = 0;
                while i < items.len() && !str_eq(items[i].0.as_str(), key)
                    invariant
                        i <= items@.len(),
                        self == Json::Obj(items),
                        self@ == JsonV::Obj(members),
                        members.len() == items@.len(),
                        forall|k: int| 0 <= k < i ==> (#[trigger] members[k]).0 != key@,
                    decreases items.len() - i,
                {
                    assert(members[i as int] == (items@[i as int].0@, items@[i as int].1@));
                    i += 1;
                }
                proof {
                    if i < items@.len() {
                        assert(members[i as int] == (items@[i as int].0@, items@[i as int].1@));
                    }
                    put_at(members, key@, value@, i as int);
                }
                if i < items.len() {
                    items.set(i, (key.to_owned(), value));
                    let r = Json::Obj(items);
                    assert(r@->Obj_0 =~= members.update(i as int, (key@, value@)));
                    r
                } else {
                    items.push((key.to_owned(), value));
                    let r = Json::Obj(items);
                    assert(r@->Obj_0 =~= members.push((key@, value@)));
                    r
                }
            },
            other => other,
        }
    }

    pub fn text(s: &str) -> (r: Json)
        ensures
            r@ == JsonV::Str(s@),
    {
        Json::Str(s.to_owned())
    }

    pub fn optional(s: &Option<String>) -> (r: Json)
        ensures
            r@ == JsonV::optional_text(*s),
    {
        match s {
            Some(t) => Json::Str(t.clone()),
            None => Json::Null,
        }
    }

    /// The elements of an array.
    pub fn as_array(&self) -> (r: Option<&Vec<Json>>)
        ensures
            match r {
                Some(v) => self@.elements() == Some(json_views(v@)),
                None => self@.elements() is None,
            },
    {
        match self {
            Json::Arr(v) => {
                assert(self@->Arr_0 =~= json_views(v@));
                Some(v)
            },
            _ => None,
        }
    }

    /// Another value of the same kind and content.
    pub fn copy(&self) -> (r: Json)
        ensures
            r@ == self@,
        decreases *self,
    {
        match self {
            Json::Null => Json::Null,
            Json::Bool(b) => Json::Bool(*b),
            Json::U64(n) => Json::U64(*n),
            Json::I64(n) => Json::I64(*n),
            Json::Decimal(t) => Json::Decimal(t.clone()),
            Json::Str(t) => Json::Str(t.clone()),
            Json::Arr(v) => {
                let mut out: Vec<Json> = Vec::new();
                let mut i: usize = 0;
                while i < v.len()
                    invariant
                        i <= v@.len(),
                        *self == Json::Arr(*v),
                        out@.len() == i,
                        forall|k: int| 0 <= k < i ==> (#[trigger] out@[k])@ == v@[k]@,
                    decreases v.len() - i,
                {
                    assert(decreases_to!(*self => self->Arr_0));
                    assert(decreases_to!(*v => v@));
                    assert(decreases_to!(v@ => v@[i as int]));
                    out.push(v[i].copy());
                    i += 1;
                }
                let r = Json::Arr(out);
                assert(r@->Arr_0 =~= self@->Arr_0);
                r
            },
            Json::Obj(v) => {
                let mut out: Vec<(String, Json)> = Vec::new();
                let mut i: usize = 0;
                while i < v.len()
                    invariant
                        i <= v@.len(),
                        *self == Json::Obj(*v),
                        out@.len() == i,
                        forall|k: int| 0 <= k < i ==> (#[trigger] out@[k]).0@ == v@[k].0@,
                        forall|k: int| 0 <= k < i ==> (#[trigger] out@[k]).1@ == v@[k].1@,
                    decreases v.len() - i,
                {
                    assert(decreases_to!(*self => self->Obj_0));
                    assert(decreases_to!(*v => v@));
                    assert(decreases_to!(v@ => v@[i as int]));
                    out.push((v[i].0.clone(), v[i].1.copy()));
                    i += 1;
                }
                let r = Json::Obj(out);
                assert(r@->Obj_0 =~= self@->Obj_0);
                r
            },
        }
    }

    /// An array of texts.
    pub fn texts(items: &Vec<String>) -> (r: Json)
        ensures
            r@ == JsonV::texts(crate::text::texts_view(items@)),
    {
        let ghost views = crate::text::texts_view(items@);
        let mut out: Vec<Json> = Vec::new();
        let mut i: usize = 0;
        while i < items.len()
            invariant
                i <= items@.len(),
                views == crate::text::texts_view(items@),
                json_views(out@) == views.take(i as int).map_values(|t: Seq<char>| JsonV::Str(t)),
            decreases items.len() - i,
        {
            let ghost before = json_views(out@);
            let entry = Json::Str(items[i].clone());
            let ghost shown = entry@;
            out.push(entry);
            assert(json_views(out@) =~= before.push(shown));
            assert(views.take(i + 1) =~= views.take(i as int).push(views[i as int]));
            proof {
                crate::seqs::map_push(
                    views.take(i as int),
                    views[i as int],
                    |t: Seq<char>| JsonV::Str(t),
                );
            }
            i += 1;
        }
        assert(views.take(i as int) =~= views);
        Json::array(out)
    }

    pub fn array(items: Vec<Json>) -> (r: Json)
        ensures
            r@ == JsonV::Arr(json_views(items@)),
    {
        let r = Json::Arr(items);
        assert(r@->Arr_0 =~= json_views(items@));
        r
    }
}

/// Whether two texts are equal.
pub fn str_eq(a: &str, b: &str) -> (r: bool)
    ensures
        r == (a@ == b@),
{
    a.to_owned() == b.to_owned()
}

} // verus!
