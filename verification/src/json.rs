//! A JSON document as the library reads and writes it.
//!
//! Messages to the browser are built as [`Json`] values and replies are
//! decoded from them. Turning a [`Json`] into text, and text into a [`Json`],
//! happens where the socket is read and written.
use vstd::prelude::*;

verus! {

broadcast use vstd::seq::group_seq_axioms;

/// A JSON value.
///
/// Numbers that fit in an `i64` are held as `Int`; any other number keeps
/// the text it was written with in `Number`. An object keeps its members in
/// order; a lookup finds the first member with the key.
#[derive(Debug, PartialEq)]
pub enum Json {
    Null,
    Bool(bool),
    Int(i64),
    Number(String),
    Str(String),
    Array(Vec<Json>),
    Object(Vec<Member>),
}

/// A member of a JSON object.
#[derive(Debug, PartialEq)]
pub struct Member {
    pub key: String,
    pub value: Json,
}

/// The mathematical value of a [`Json`].
pub enum JsonV {
    Null,
    Bool(bool),
    Int(int),
    Number(Seq<char>),
    Str(Seq<char>),
    Array(Seq<JsonV>),
    /// The keys of the members and, at the same positions, their values.
    Object(Seq<Seq<char>>, Seq<JsonV>),
}

impl View for Json {
    type V = JsonV;

    open spec fn view(&self) -> JsonV
        decreases self,
    {
        match self {
            Json::Null => JsonV::Null,
            Json::Bool(b) => JsonV::Bool(*b),
            Json::Int(n) => JsonV::Int(*n as int),
            Json::Number(s) => JsonV::Number(s@),
            Json::Str(s) => JsonV::Str(s@),
            Json::Array(items) => JsonV::Array(
                Seq::new(
                    items.len() as nat,
                    |i: int|
                        {
                            if 0 <= i < items.len() {
                                items@[i].view()
                            } else {
                                JsonV::Null
                            }
                        },
                ),
            ),
            Json::Object(fields) => JsonV::Object(
                Seq::new(fields.len() as nat, |i: int| fields@[i].key@),
                Seq::new(
                    fields.len() as nat,
                    |i: int|
                        {
                            if 0 <= i < fields.len() {
                                fields@[i].value.view()
                            } else {
                                JsonV::Null
                            }
                        },
                ),
            ),
        }
    }
}

/// The value of the first member named `key`, among members whose keys
/// are `keys` and whose values are `values`.
pub open spec fn lookup(keys: Seq<Seq<char>>, values: Seq<JsonV>, key: Seq<char>) -> Option<JsonV>
    decreases keys.len(),
{
    if keys.len() == 0 || values.len() == 0 {
        None
    } else if keys[0] == key {
        Some(values[0])
    } else {
        lookup(keys.drop_first(), values.drop_first(), key)
    }
}

impl JsonV {
    /// The member `key` of an object; `None` for a missing member or a value
    /// that is not an object.
    pub open spec fn get(self, key: Seq<char>) -> Option<JsonV> {
        match self {
            JsonV::Object(keys, values) => lookup(keys, values, key),
            _ => None,
        }
    }

    pub open spec fn is_object(self) -> bool {
        self is Object
    }
}

/// A required string member.
pub open spec fn str_member(j: JsonV, key: Seq<char>) -> Option<Seq<char>> {
    match j.get(key) {
        Some(JsonV::Str(s)) => Some(s),
        _ => None,
    }
}

/// A required boolean member.
pub open spec fn bool_member(j: JsonV, key: Seq<char>) -> Option<bool> {
    match j.get(key) {
        Some(JsonV::Bool(b)) => Some(b),
        _ => None,
    }
}

/// Whether an integer fits in an `i32`.
pub open spec fn fits_i32(n: int) -> bool {
    i32::MIN <= n <= i32::MAX
}

/// A required `i32` member: an integer in the range of `i32`.
pub open spec fn i32_member(j: JsonV, key: Seq<char>) -> Option<i32> {
    match j.get(key) {
        Some(JsonV::Int(n)) => if fits_i32(n) {
            Some(n as i32)
        } else {
            None
        },
        _ => None,
    }
}

/// An optional string member: missing or `null` is `Some(None)`, a string is
/// `Some(Some(..))`, anything else fails to decode (`None`).
pub open spec fn opt_str_member(j: JsonV, key: Seq<char>) -> Option<Option<Seq<char>>> {
    match j.get(key) {
        None => Some(None),
        Some(JsonV::Null) => Some(None),
        Some(JsonV::Str(s)) => Some(Some(s)),
        _ => None,
    }
}

/// An optional `i32` member, decoded as [`opt_str_member`] decodes strings.
pub open spec fn opt_i32_member(j: JsonV, key: Seq<char>) -> Option<Option<i32>> {
    match j.get(key) {
        None => Some(None),
        Some(JsonV::Null) => Some(None),
        Some(JsonV::Int(n)) => if fits_i32(n) {
            Some(Some(n as i32))
        } else {
            None
        },
        _ => None,
    }
}

/// An optional member of any value: missing or `null` is `None`.
pub open spec fn opt_member(j: JsonV, key: Seq<char>) -> Option<JsonV> {
    match j.get(key) {
        None => None,
        Some(JsonV::Null) => None,
        Some(v) => Some(v),
    }
}

/// The keys of the members of an object.
pub open spec fn member_keys(fields: Seq<Member>) -> Seq<Seq<char>> {
    Seq::new(fields.len(), |i: int| fields[i].key@)
}

/// The values of the members of an object.
pub open spec fn member_values(fields: Seq<Member>) -> Seq<JsonV> {
    Seq::new(fields.len(), |i: int| fields[i].value@)
}

pub proof fn lemma_object_view(fields: Vec<Member>)
    ensures
        Json::Object(fields)@ == JsonV::Object(member_keys(fields@), member_values(fields@)),
{
    let j = Json::Object(fields);
    assert(j@->Object_0 =~= member_keys(fields@));
    assert(j@->Object_1 =~= member_values(fields@));
}

pub proof fn lemma_array_view(items: Vec<Json>)
    ensures
        Json::Array(items)@ == JsonV::Array(Seq::new(items@.len(), |i: int| items@[i]@)),
{
    let j = Json::Array(items);
    assert(j@->Array_0 =~= Seq::new(items@.len(), |i: int| items@[i]@));
}

proof fn lemma_lookup_skip(keys: Seq<Seq<char>>, values: Seq<JsonV>, i: int, key: Seq<char>)
    requires
        0 <= i < keys.len(),
        keys.len() == values.len(),
        keys[i] != key,
    ensures
        lookup(keys.skip(i), values.skip(i), key) == lookup(keys.skip(i + 1), values.skip(i + 1), key),
{
    assert(keys.skip(i).drop_first() =~= keys.skip(i + 1));
    assert(values.skip(i).drop_first() =~= values.skip(i + 1));
}

/// Whether two strings hold the same characters.
pub fn same_text(a: &str, b: &str) -> (r: bool)
    ensures
        r == (a@ == b@),
{
    let x = a.to_owned();
    let y = b.to_owned();
    x == y
}

impl Json {
    /// The member `key` of an object.
    pub fn get(&self, key: &str) -> (r: Option<&Json>)
        ensures
            match r {
                Some(v) => self@.get(key@) == Some(v@),
                None => self@.get(key@) is None,
            },
    {
        match self {
            Json::Object(fields) => {
                proof {
                    lemma_object_view(*fields);
                }
                let ghost ks = member_keys(fields@);
                let ghost vs = member_values(fields@);
                let key_text = key.to_owned();
                let n = fields.len();
                let mut i: usize = 0;
                assert(ks.skip(0) =~= ks);
                assert(vs.skip(0) =~= vs);
                while i < n
                    invariant
                        n == fields.len(),
                        ks == member_keys(fields@),
                        vs == member_values(fields@),
                        i <= n,
                        key_text@ == key@,
                        lookup(ks, vs, key@) == lookup(ks.skip(i as int), vs.skip(i as int), key@),
                        self@.get(key@) == lookup(ks, vs, key@),
                    decreases n - i,
                {
                    let entry = &fields[i];
                    if entry.key == key_text {
                        assert(ks[i as int] == key@);
                        assert(ks.skip(i as int)[0] == ks[i as int]);
                        assert(vs.skip(i as int)[0] == vs[i as int]);
                        assert(ks.skip(i as int).len() > 0);
                        assert(vs.skip(i as int).len() > 0);
                        assert(lookup(ks.skip(i as int), vs.skip(i as int), key@) == Some(vs[i as int]));

                        return Some(&entry.value);
                    }
                    proof {
                        lemma_lookup_skip(ks, vs, i as int, key@);
                    }
                    i = i + 1;
                }
                assert(ks.skip(n as int).len() == 0);
                None
            },
            _ => None,
        }
    }

    /// A required string member.
    pub fn str_member(&self, key: &str) -> (r: Option<String>)
        ensures
            match r {
                Some(s) => str_member(self@, key@) == Some(s@),
                None => str_member(self@, key@) is None,
            },
    {
        match self.get(key) {
            Some(Json::Str(s)) => Some(s.clone()),
            _ => None,
        }
    }

    /// A required boolean member.
    pub fn bool_member(&self, key: &str) -> (r: Option<bool>)
        ensures
            r == bool_member(self@, key@),
    {
        match self.get(key) {
            Some(Json::Bool(b)) => Some(*b),
            _ => None,
        }
    }

    /// A required `i32` member.
    pub fn i32_member(&self, key: &str) -> (r: Option<i32>)
        ensures
            r == i32_member(self@, key@),
    {
        match self.get(key) {
            Some(Json::Int(n)) => {
                if i32::MIN as i64 <= *n && *n <= i32::MAX as i64 {
                    Some(*n as i32)
                } else {
                    None
                }
            },
            _ => None,
        }
    }

    /// An optional string member.
    pub fn opt_str_member(&self, key: &str) -> (r: Option<Option<String>>)
        ensures
            match r {
                Some(Some(s)) => opt_str_member(self@, key@) == Some(Some(s@)),
                Some(None) => opt_str_member(self@, key@) == Some(None::<Seq<char>>),
                None => opt_str_member(self@, key@) is None,
            },
    {
        match self.get(key) {
            None => Some(None),
            Some(Json::Null) => Some(None),
            Some(Json::Str(s)) => Some(Some(s.clone())),
            _ => None,
        }
    }

    /// An optional `i32` member.
    pub fn opt_i32_member(&self, key: &str) -> (r: Option<Option<i32>>)
        ensures
            r == opt_i32_member(self@, key@),
    {
        match self.get(key) {
            None => Some(None),
            Some(Json::Null) => Some(None),
            Some(Json::Int(n)) => {
                if i32::MIN as i64 <= *n && *n <= i32::MAX as i64 {
                    Some(Some(*n as i32))
                } else {
                    None
                }
            },
            _ => None,
        }
    }
}

} // verus!

verus! {

/// Values that are read out of a JSON document.
///
/// `spec_from_json` says which documents decode and to what; `from_json`
/// decodes exactly those.
pub trait FromJson: Sized + View {
    spec fn spec_from_json(j: JsonV) -> Option<Self::V>;

    fn from_json(j: &Json) -> (r: Option<Self>)
        ensures
            match r {
                Some(v) => Self::spec_from_json(j@) == Some(v@),
                None => Self::spec_from_json(j@) is None,
            },
    ;

    /// Why `j` does not decode: the first member that is missing or of the
    /// wrong type, or the member in which a nested value fails. It is only
    /// meant for a document that does not decode.
    spec fn spec_failure(j: JsonV) -> Seq<char>;

    /// Describes why `j` does not decode; the text is only meant for a
    /// document that does not.
    fn failure(j: &Json) -> (r: String)
        ensures
            r@ == Self::spec_failure(j@),
    ;
}

/// The description of a member that is missing or of the wrong type.
pub open spec fn bad_member(key: Seq<char>) -> Seq<char> {
    "missing or invalid member `"@ + key + "`"@
}

/// The description of a failure `why` inside the member `key`.
pub open spec fn in_member(key: Seq<char>, why: Seq<char>) -> Seq<char> {
    "in member `"@ + key + "`: "@ + why
}

/// The text of [`bad_member`].
pub fn bad_member_text(key: &str) -> (r: String)
    ensures
        r@ == bad_member(key@),
{
    "missing or invalid member `".to_owned().concat(key).concat("`")
}

/// The text of [`in_member`].
pub fn in_member_text(key: &str, why: &str) -> (r: String)
    ensures
        r@ == in_member(key@, why@),
{
    "in member `".to_owned().concat(key).concat("`: ").concat(why)
}

impl FromJson for Json {
    open spec fn spec_from_json(j: JsonV) -> Option<JsonV> {
        Some(j)
    }

    fn from_json(j: &Json) -> (r: Option<Json>) {
        Some(j.deep_copy())
    }

    /// Every document decodes as a document.
    open spec fn spec_failure(j: JsonV) -> Seq<char> {
        Seq::empty()
    }

    fn failure(j: &Json) -> (r: String) {
        String::new()
    }
}

impl Json {
    /// A copy of the document.
    pub fn deep_copy(&self) -> (r: Json)
        ensures
            r@ == self@,
        decreases self,
    {
        match self {
            Json::Null => Json::Null,
            Json::Bool(b) => Json::Bool(*b),
            Json::Int(n) => Json::Int(*n),
            Json::Number(s) => Json::Number(s.clone()),
            Json::Str(s) => Json::Str(s.clone()),
            Json::Array(items) => {
                let mut out: Vec<Json> = Vec::new();
                let n = items.len();
                for i in 0..n
                    invariant
                        n == items.len(),
                        out.len() == i,
                        forall|k: int| 0 <= k < i ==> #[trigger] out@[k]@ == items@[k]@,
                        *self == Json::Array(*items),
                {
                    proof {
                        assert(decreases_to!(*self => (*self)->Array_0));
                        assert(decreases_to!(*items => items@));
                        assert(decreases_to!(items@ => items@[i as int]));
                        assert(decreases_to!(self => items@[i as int]));
                    }
                    out.push(items[i].deep_copy());
                }
                proof {
                    lemma_array_view(*items);
                    lemma_array_view(out);
                    assert(Seq::new(out@.len(), |k: int| out@[k]@) =~= Seq::new(items@.len(), |k: int| items@[k]@));
                }
                Json::Array(out)
            },
            Json::Object(fields) => {
                let mut out: Vec<Member> = Vec::new();
                let n = fields.len();
                for i in 0..n
                    invariant
                        n == fields.len(),
                        out.len() == i,
                        forall|k: int| 0 <= k < i ==> (#[trigger] out@[k]).key@ == fields@[k].key@,
                        forall|k: int| 0 <= k < i ==> (#[trigger] out@[k]).value@ == fields@[k].value@,
                        *self == Json::Object(*fields),
                {
                    proof {
                        assert(decreases_to!(*self => (*self)->Object_0));
                        assert(decreases_to!(*fields => fields@));
                        assert(decreases_to!(fields@ => fields@[i as int]));
                        assert(decreases_to!(fields@[i as int] => fields@[i as int].value));
                        assert(decreases_to!(self => fields@[i as int].value));
                    }
                    let m = &fields[i];
                    out.push(Member { key: m.key.clone(), value: m.value.deep_copy() });
                }
                proof {
                    lemma_object_view(*fields);
                    lemma_object_view(out);
                    assert(member_keys(out@) =~= member_keys(fields@));
                    assert(member_values(out@) =~= member_values(fields@));
                }
                Json::Object(out)
            },
        }
    }
}

/// The views of the items of a sequence.
pub open spec fn views<T: View>(v: Seq<T>) -> Seq<T::V> {
    Seq::new(v.len(), |i: int| v[i]@)
}

/// Reads an array whose every item is a `T`.
pub open spec fn spec_array_from_json<T: FromJson>(j: JsonV) -> Option<Seq<T::V>> {
    match j {
        JsonV::Array(items) => if forall|i: int|
            0 <= i < items.len() ==> (#[trigger] T::spec_from_json(items[i])) is Some {
            Some(Seq::new(items.len(), |i: int| T::spec_from_json(items[i])->Some_0))
        } else {
            None
        },
        _ => None,
    }
}

/// Reads an array whose every item is a `T`.
pub fn array_from_json<T: FromJson>(j: &Json) -> (r: Option<Vec<T>>)
    ensures
        match r {
            Some(v) => spec_array_from_json::<T>(j@) == Some(views(v@)),
            None => spec_array_from_json::<T>(j@) is None,
        },
{
    match j {
        Json::Array(items) => {
            proof {
                lemma_array_view(*items);
            }
            let ghost iv = Seq::new(items@.len(), |i: int| items@[i]@);
            let mut out: Vec<T> = Vec::new();
            let n = items.len();
            for i in 0..n
                invariant
                    n == items.len(),
                    iv == Seq::new(items@.len(), |i: int| items@[i]@),
                    j@ == JsonV::Array(iv),
                    out.len() == i,
                    forall|k: int| 0 <= k < i ==> T::spec_from_json(iv[k]) == Some(#[trigger] out@[k]@),
            {
                match T::from_json(&items[i]) {
                    Some(x) => {
                        out.push(x);
                    },
                    None => {
                        assert(T::spec_from_json(iv[i as int]) is None);
                        return None;
                    },
                }
            }
            assert forall|k: int| 0 <= k < iv.len() implies (#[trigger] T::spec_from_json(iv[k])) is Some by {
                assert(T::spec_from_json(iv[k]) == Some(out@[k]@));
            }
            assert forall|k: int| 0 <= k < iv.len() implies views(out@)[k] == T::spec_from_json(iv[k])->Some_0 by {
                assert(T::spec_from_json(iv[k]) == Some(out@[k]@));
            }
            assert(views(out@) =~= Seq::new(iv.len(), |k: int| T::spec_from_json(iv[k])->Some_0));
            Some(out)
        },
        _ => None,
    }
}

/// A member found by [`lookup`] is part of the object it was found in.
pub proof fn lemma_lookup_decreases(keys: Seq<Seq<char>>, values: Seq<JsonV>, key: Seq<char>)
    ensures
        lookup(keys, values, key) matches Some(v) ==> decreases_to!(values => v),
    decreases keys.len(),
{
    if keys.len() == 0 || values.len() == 0 {
    } else if keys[0] == key {
        assert(decreases_to!(values => values[0]));
    } else {
        lemma_lookup_decreases(keys.drop_first(), values.drop_first(), key);
        if let Some(v) = lookup(keys, values, key) {
            assert(values.drop_first().len() < values.len());
            vstd::seq::axiom_seq_len_decreases(values, values.drop_first());
            assert(decreases_to!(values => values.drop_first()));
        }
    }
}

/// A member of an object is part of the object.
pub proof fn lemma_get_decreases(j: JsonV, key: Seq<char>)
    ensures
        j.get(key) matches Some(v) ==> decreases_to!(j => v),
{
    if let JsonV::Object(keys, values) = j {
        lemma_lookup_decreases(keys, values, key);
        assert(decreases_to!(j => j->Object_1));
    }
}

impl FromJson for String {
    open spec fn spec_from_json(j: JsonV) -> Option<Seq<char>> {
        match j {
            JsonV::Str(s) => Some(s),
            _ => None,
        }
    }

    fn from_json(j: &Json) -> (r: Option<String>) {
        match j {
            Json::Str(s) => Some(s.clone()),
            _ => None,
        }
    }

    open spec fn spec_failure(j: JsonV) -> Seq<char> {
        "not a string"@
    }

    fn failure(j: &Json) -> (r: String) {
        "not a string".to_owned()
    }
}

impl Clone for Json {
    fn clone(&self) -> (r: Self)
        ensures
            r@ == self@,
    {
        self.deep_copy()
    }
}

impl Clone for Member {
    fn clone(&self) -> (r: Self)
        ensures
            r.key@ == self.key@,
            r.value@ == self.value@,
    {
        Member { key: self.key.clone(), value: self.value.deep_copy() }
    }
}

/// The text of an optional string.
pub open spec fn opt_text_view(s: Option<String>) -> Option<Seq<char>> {
    match s {
        Some(t) => Some(t@),
        None => None,
    }
}

/// A copy of an optional string.
pub fn copy_opt_text(s: &Option<String>) -> (r: Option<String>)
    ensures
        opt_text_view(r) == opt_text_view(*s),
{
    match s {
        Some(t) => Some(t.clone()),
        None => None,
    }
}


/// A lookup finds the value of the first member with the key, and nothing
/// when no member has it.
pub proof fn lemma_lookup_first(keys: Seq<Seq<char>>, values: Seq<JsonV>, key: Seq<char>, i: int)
    requires
        keys.len() == values.len(),
        0 <= i < keys.len(),
        keys[i] == key,
        forall|k: int| 0 <= k < i ==> keys[k] != key,
    ensures
        lookup(keys, values, key) == Some(values[i]),
    decreases i,
{
    if i > 0 {
        lemma_lookup_first(keys.drop_first(), values.drop_first(), key, i - 1);
    }
}

/// A key that no member has is not found.
pub proof fn lemma_lookup_missing(keys: Seq<Seq<char>>, values: Seq<JsonV>, key: Seq<char>)
    requires
        !keys.contains(key),
    ensures
        lookup(keys, values, key) is None,
    decreases keys.len(),
{
    if keys.len() > 0 && values.len() > 0 {
        assert(keys[0] != key);
        assert forall|k: int| 0 <= k < keys.drop_first().len() implies keys.drop_first()[k] != key by {
            assert(keys.drop_first()[k] == keys[k + 1]);
        }
        lemma_lookup_missing(keys.drop_first(), values.drop_first(), key);
    }
}

/// The member readers: a string, a boolean or an `i32` is read from a member
/// holding one; an optional string is also read as nothing from a missing or
/// `null` member, and an optional value from any member but `null`.
pub proof fn lemma_member_readers(j: JsonV, key: Seq<char>)
    ensures
        forall|s: Seq<char>| str_member(j, key) == Some(s) <==> j.get(key) == Some(JsonV::Str(s)),
        forall|b: bool| bool_member(j, key) == Some(b) <==> j.get(key) == Some(JsonV::Bool(b)),
        forall|n: i32| i32_member(j, key) == Some(n) <==> j.get(key) == Some(JsonV::Int(n as int)),
        i32_member(j, key) is Some <==> (j.get(key) matches Some(JsonV::Int(n)) && i32::MIN <= n <= i32::MAX),
        opt_str_member(j, key) == Some(None::<Seq<char>>) <==> (j.get(key) is None || j.get(key) == Some(JsonV::Null)),
        forall|s: Seq<char>| opt_str_member(j, key) == Some(Some(s)) <==> j.get(key) == Some(JsonV::Str(s)),
        forall|n: i32| opt_i32_member(j, key) == Some(Some(n)) <==> j.get(key) == Some(JsonV::Int(n as int)),
        opt_i32_member(j, key) == Some(None::<i32>) <==> (j.get(key) is None || j.get(key) == Some(JsonV::Null)),
        opt_member(j, key) is None <==> (j.get(key) is None || j.get(key) == Some(JsonV::Null)),
        opt_member(j, key) matches Some(v) ==> j.get(key) == Some(v),
{
}

} // verus!
