use vstd::prelude::*;

verus! {

/// A JSON document as the normalization layer reads it.
///
/// Objects keep their members in document order. A document produced by a
/// JSON parser holds each key of an object at most once; where a key repeats,
/// lookups see its first occurrence.
#[derive(Debug)]
pub enum Json {
    Null,
    Bool(bool),
    /// A number that is an integer within the range of `i64`.
    Int(i64),
    /// Any other number (fractional, or an integer outside the range of `i64`).
    OtherNumber,
    Str(String),
    Array(Vec<Json>),
    Object(Vec<(String, Json)>),
}

/// The value of the first member named `key`, if any.
pub open spec fn lookup(members: Seq<(String, Json)>, key: Seq<char>) -> Option<Json>
    decreases members.len(),
{
    if members.len() == 0 {
        None
    } else if members[0].0@ == key {
        Some(members[0].1)
    } else {
        lookup(members.drop_first(), key)
    }
}

pub open spec fn deref_json(r: Option<&Json>) -> Option<Json> {
    match r {
        Some(v) => Some(*v),
        None => None,
    }
}

/// The value of the first member of `members` named `key`.
pub fn member<'a>(members: &'a Vec<(String, Json)>, key: &str) -> (r: Option<&'a Json>)
    ensures
        deref_json(r) == lookup(members@, key@),
{
    let k = String::from_str(key);
    let mut i: usize = 0;
    assert(members@.subrange(0, members@.len() as int) =~= members@);
    while i < members.len()
        invariant
            i <= members@.len(),
            k@ == key@,
            lookup(members@, key@) == lookup(
                members@.subrange(i as int, members@.len() as int),
                key@,
            ),
        decreases members@.len() - i,
    {
        let ghost rest = members@.subrange(i as int, members@.len() as int);
        assert(rest.drop_first() =~= members@.subrange(i + 1, members@.len() as int));
        assert(rest[0] == members@[i as int]);
        let entry = &members[i];
        if entry.0 == k {
            assert(lookup(rest, key@) == Some(entry.1));
            return Some(&entry.1);
        }
        i += 1;
    }
    None
}

impl Json {
    /// The member `key` of an object; `None` for a missing key or a non-object.
    pub open spec fn field(self, key: Seq<char>) -> Option<Json> {
        match self {
            Json::Object(m) => lookup(m@, key),
            _ => None,
        }
    }

    pub open spec fn text(self) -> Option<Seq<char>> {
        match self {
            Json::Str(s) => Some(s@),
            _ => None,
        }
    }

    pub open spec fn items(self) -> Option<Seq<Json>> {
        match self {
            Json::Array(a) => Some(a@),
            _ => None,
        }
    }

    pub open spec fn members(self) -> Option<Seq<(String, Json)>> {
        match self {
            Json::Object(m) => Some(m@),
            _ => None,
        }
    }

    /// The text held by an optional value, where it is a string.
    pub open spec fn text_of(v: Option<Json>) -> Option<Seq<char>> {
        match v {
            Some(j) => j.text(),
            None => None,
        }
    }

    /// The items held by an optional value, where it is an array.
    pub open spec fn items_of(v: Option<Json>) -> Option<Seq<Json>> {
        match v {
            Some(j) => j.items(),
            None => None,
        }
    }

    /// The members held by an optional value, where it is an object.
    pub open spec fn members_of(v: Option<Json>) -> Option<Seq<(String, Json)>> {
        match v {
            Some(j) => j.members(),
            None => None,
        }
    }

    pub fn get(&self, key: &str) -> (r: Option<&Json>)
        ensures
            deref_json(r) == self.field(key@),
    {
        match self {
            Json::Object(m) => member(m, key),
            _ => None,
        }
    }

    pub fn as_str(&self) -> (r: Option<&String>)
        ensures
            match r {
                Some(s) => self.text() == Some(s@),
                None => self.text() is None,
            },
    {
        match self {
            Json::Str(s) => Some(s),
            _ => None,
        }
    }

    pub fn as_array(&self) -> (r: Option<&Vec<Json>>)
        ensures
            match r {
                Some(a) => self.items() == Some(a@),
                None => self.items() is None,
            },
    {
        match self {
            Json::Array(a) => Some(a),
            _ => None,
        }
    }

    pub fn as_object(&self) -> (r: Option<&Vec<(String, Json)>>)
        ensures
            match r {
                Some(m) => self.members() == Some(m@),
                None => self.members() is None,
            },
    {
        match self {
            Json::Object(m) => Some(m),
            _ => None,
        }
    }

    pub fn as_bool(&self) -> (r: Option<bool>)
        ensures
            r == (match *self {
                Json::Bool(b) => Some(b),
                _ => None::<bool>,
            }),
    {
        match self {
            Json::Bool(b) => Some(*b),
            _ => None,
        }
    }

    pub fn as_i64(&self) -> (r: Option<i64>)
        ensures
            r == (match *self {
                Json::Int(n) => Some(n),
                _ => None::<i64>,
            }),
    {
        match self {
            Json::Int(n) => Some(*n),
            _ => None,
        }
    }

    pub fn is_object(&self) -> (r: bool)
        ensures
            r == (*self is Object),
    {
        match self {
            Json::Object(_) => true,
            _ => false,
        }
    }

    pub fn is_null(&self) -> (r: bool)
        ensures
            r == (*self is Null),
    {
        match self {
            Json::Null => true,
            _ => false,
        }
    }
}

/// `a` and `b` are the same document: same kinds, same texts and numbers,
/// same items and members in the same order.
pub open spec fn same_doc(a: Json, b: Json) -> bool
    decreases a,
{
    match (a, b) {
        (Json::Null, Json::Null) => true,
        (Json::Bool(x), Json::Bool(y)) => x == y,
        (Json::Int(x), Json::Int(y)) => x == y,
        (Json::OtherNumber, Json::OtherNumber) => true,
        (Json::Str(x), Json::Str(y)) => x@ == y@,
        (Json::Array(x), Json::Array(y)) => x@.len() == y@.len() && forall|k: int|
            0 <= k < x@.len() ==> same_doc(#[trigger] x@[k], y@[k]),
        (Json::Object(x), Json::Object(y)) => x@.len() == y@.len() && forall|k: int|
            0 <= k < x@.len() ==> (#[trigger] x@[k]).0@ == y@[k].0@ && same_doc(x@[k].1, y@[k].1),
        _ => false,
    }
}

pub open spec fn same_items(a: Seq<Json>, b: Seq<Json>) -> bool {
    a.len() == b.len() && forall|k: int| 0 <= k < a.len() ==> same_doc(#[trigger] a[k], b[k])
}

pub open spec fn same_members(a: Seq<(String, Json)>, b: Seq<(String, Json)>) -> bool {
    a.len() == b.len() && forall|k: int|
        0 <= k < a.len() ==> (#[trigger] a[k]).0@ == b[k].0@ && same_doc(a[k].1, b[k].1)
}

impl Json {
    /// A copy of the whole document.
    pub fn deep_copy(&self) -> (r: Json)
        ensures
            same_doc(r, *self),
        decreases self,
    {
        match self {
            Json::Null => Json::Null,
            Json::Bool(b) => Json::Bool(*b),
            Json::Int(n) => Json::Int(*n),
            Json::OtherNumber => Json::OtherNumber,
            Json::Str(s) => Json::Str(s.clone()),
            Json::Array(a) => Json::Array(copy_items(a)),
            Json::Object(m) => Json::Object(copy_members(m)),
        }
    }
}

impl Clone for Json {
    /// The same document, copied through `deep_copy`.
    fn clone(&self) -> Self {
        self.deep_copy()
    }
}

pub fn copy_items(a: &Vec<Json>) -> (r: Vec<Json>)
    ensures
        same_items(r@, a@),
    decreases a,
{
    let mut out: Vec<Json> = Vec::new();
    let mut i: usize = 0;
    while i < a.len()
        invariant
            i <= a@.len(),
            out@.len() == i,
            forall|k: int| 0 <= k < i ==> same_doc(#[trigger] out@[k], a@[k]),
        decreases a@.len() - i,
    {
        proof {
            assert(decreases_to!(a => a@[i as int]));
        }
        out.push(a[i].deep_copy());
        i += 1;
    }
    out
}

pub fn copy_members(m: &Vec<(String, Json)>) -> (r: Vec<(String, Json)>)
    ensures
        same_members(r@, m@),
    decreases m,
{
    let mut out: Vec<(String, Json)> = Vec::new();
    let mut i: usize = 0;
    while i < m.len()
        invariant
            i <= m@.len(),
            out@.len() == i,
            forall|k: int|
                0 <= k < i ==> (#[trigger] out@[k]).0@ == m@[k].0@ && same_doc(out@[k].1, m@[k].1),
        decreases m@.len() - i,
    {
        proof {
            assert(decreases_to!(m => m@[i as int]));
        }
        let entry = &m[i];
        out.push((entry.0.clone(), entry.1.deep_copy()));
        i += 1;
    }
    out
}

/// A member's value is a strictly smaller document than the object holding it.
pub proof fn lemma_field_smaller(j: Json, key: Seq<char>)
    ensures
        j.field(key) matches Some(v) ==> decreases_to!(j => v),
{
    if let Json::Object(m) = j {
        lemma_lookup_found(m@, key);
        if let Some(v) = lookup(m@, key) {
            let i = choose|i: int| 0 <= i < m@.len() && m@[i].1 == v;
            assert(decreases_to!(m => m@));
            assert(decreases_to!(m@ => m@[i]));
        }
    }
}

proof fn lemma_lookup_found(members: Seq<(String, Json)>, key: Seq<char>)
    ensures
        lookup(members, key) matches Some(v) ==> exists|i: int|
            0 <= i < members.len() && #[trigger] members[i].1 == v,
    decreases members.len(),
{
    if members.len() > 0 && members[0].0@ != key {
        lemma_lookup_found(members.drop_first(), key);
        if let Some(v) = lookup(members, key) {
            let i = choose|i: int|
                0 <= i < members.drop_first().len() && #[trigger] members.drop_first()[i].1 == v;
            assert(members[i + 1].1 == v);
        }
    } else if members.len() > 0 {
        assert(members[0].1 == members[0].1);
    }
}

} // verus!
