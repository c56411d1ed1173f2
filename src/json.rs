use vstd::prelude::*;

verus! {

/// A JSON document as the library reads and writes it.
#[derive(Debug, PartialEq, Eq)]
pub enum Json {
    Null,
    Bool(bool),
    Number(String),
    Str(String),
    Array(Vec<Json>),
    Object(Vec<(String, Json)>),
}

/// The mathematical value of a JSON document.
pub enum JsonV {
    Null,
    Bool(bool),
    Number(Seq<char>),
    Str(Seq<char>),
    Array(Seq<JsonV>),
    Object(Seq<(Seq<char>, JsonV)>),
}

pub open spec fn json_view(j: Json) -> JsonV
    decreases j,
{
    match j {
        Json::Null => JsonV::Null,
        Json::Bool(b) => JsonV::Bool(b),
        Json::Number(n) => JsonV::Number(n@),
        Json::Str(s) => JsonV::Str(s@),
        Json::Array(items) => JsonV::Array(
            Seq::new(
                items.len() as nat,
                |i: int|
                    if 0 <= i < items.len() {
                        json_view(items[i])
                    } else {
                        JsonV::Null
                    },
            ),
        ),
        Json::Object(fields) => JsonV::Object(
            Seq::new(
                fields.len() as nat,
                |i: int|
                    if 0 <= i < fields.len() {
                        (fields[i].0@, json_view(fields[i].1))
                    } else {
                        (Seq::empty(), JsonV::Null)
                    },
            ),
        ),
    }
}

impl View for Json {
    type V = JsonV;

    open spec fn view(&self) -> JsonV {
        json_view(*self)
    }
}

/// The value stored under `key` in `fields`: the first entry with that key.
pub open spec fn lookup(fields: Seq<(Seq<char>, JsonV)>, key: Seq<char>) -> Option<JsonV>
    decreases fields.len(),
{
    if fields.len() == 0 {
        None
    } else if fields[0].0 == key {
        Some(fields[0].1)
    } else {
        lookup(fields.drop_first(), key)
    }
}

/// The member `key` of `j`, where `j` is an object that has it.
pub open spec fn member(j: JsonV, key: Seq<char>) -> Option<JsonV> {
    match j {
        JsonV::Object(fields) => lookup(fields, key),
        _ => None,
    }
}

/// The text of the member `key` of `j`, where that member is a string.
pub open spec fn member_str(j: JsonV, key: Seq<char>) -> Option<Seq<char>> {
    match member(j, key) {
        Some(JsonV::Str(s)) => Some(s),
        _ => None,
    }
}

/// The member `key` of `j`, where that member is a boolean.
pub open spec fn member_bool(j: JsonV, key: Seq<char>) -> Option<bool> {
    match member(j, key) {
        Some(JsonV::Bool(b)) => Some(b),
        _ => None,
    }
}

/// The object member `key` whose value is the string `value`.
pub fn str_member(key: &str, value: String) -> (r: (String, Json))
    ensures
        r.0@ == key@,
        r.1@ == JsonV::Str(value@),
{
    (String::from_str(key), Json::Str(value))
}

impl Json {
    /// The member `key` of this value, if it is an object that has one.
    pub fn get(&self, key: &str) -> (r: Option<&Json>)
        ensures
            match r {
                Some(v) => member(self@, key@) == Some(v@),
                None => member(self@, key@) is None,
            },
    {
        match self {
            Json::Object(fields) => {
                let ghost vs = self@->Object_0;
                assert(self@ == JsonV::Object(vs));
                let k = String::from_str(key);
                let mut i: usize = 0;
                assert(vs.subrange(0, vs.len() as int) =~= vs);
                while i < fields.len()
                    invariant
                        0 <= i <= fields.len(),
                        self@ == JsonV::Object(vs),
                        vs.len() == fields.len(),
                        k@ == key@,
                        forall|n: int|
                            0 <= n < fields.len() ==> #[trigger] vs[n] == (
                                fields[n].0@,
                                fields[n].1@,
                            ),
                        lookup(vs, key@) == lookup(vs.subrange(i as int, vs.len() as int), key@),
                    decreases fields.len() - i,
                {
                    let ghost rest = vs.subrange(i as int, vs.len() as int);
                    assert(rest[0] == vs[i as int]);
                    if fields[i].0 == k {
                        assert(lookup(rest, key@) == Some(fields[i as int].1@));
                        return Some(&fields[i].1);
                    }
                    assert(rest.drop_first() =~= vs.subrange(i + 1, vs.len() as int));
                    i = i + 1;
                }
                None
            },
            _ => None,
        }
    }

    /// The text of the member `key`, if it is a string.
    pub fn get_str(&self, key: &str) -> (r: Option<String>)
        ensures
            match r {
                Some(s) => member_str(self@, key@) == Some(s@),
                None => member_str(self@, key@) is None,
            },
    {
        match self.get(key) {
            Some(Json::Str(s)) => Some(s.clone()),
            _ => None,
        }
    }

    /// The member `key`, if it is a boolean.
    pub fn get_bool(&self, key: &str) -> (r: Option<bool>)
        ensures
            r == member_bool(self@, key@),
    {
        match self.get(key) {
            Some(Json::Bool(b)) => Some(*b),
            _ => None,
        }
    }
}

} // verus!
