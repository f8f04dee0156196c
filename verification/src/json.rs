//! A JSON value held as plain data, with a mathematical model.
//!
//! Requests sent to the server and responses received from it are JSON
//! documents. The library builds and reads them as [`JsonValue`]s; the
//! transport converts them to and from text. The model [`Json`] forgets how a
//! value is laid out in memory: numbers become integers (or the text of a
//! float), objects become maps in which a later member of the same name wins.
use vstd::prelude::*;

verus! {

/// A JSON number as the wire format distinguishes it.
#[derive(Debug, Clone, PartialEq)]
pub enum JsonNumber {
    /// A non-negative integer.
    PosInt(u64),
    /// A negative integer.
    NegInt(i64),
    /// A number with a fraction or an exponent, kept as its text.
    Float(String),
}

/// A JSON value.
#[derive(Debug, PartialEq)]
pub enum JsonValue {
    Null,
    Bool(bool),
    Number(JsonNumber),
    Str(String),
    Array(Vec<JsonValue>),
    /// Members in the order they were added; a later member of the same
    /// name replaces an earlier one.
    Object(Vec<(String, JsonValue)>),
}

/// The mathematical model of a JSON value.
pub enum Json {
    Null,
    Bool(bool),
    Int(int),
    Float(Seq<char>),
    Str(Seq<char>),
    Array(Seq<Json>),
    Object(Map<Seq<char>, Json>),
}

/// The model of a value.
pub open spec fn json_of(v: JsonValue) -> Json
    decreases v,
{
    match v {
        JsonValue::Null => Json::Null,
        JsonValue::Bool(b) => Json::Bool(b),
        JsonValue::Number(JsonNumber::PosInt(n)) => Json::Int(n as int),
        JsonValue::Number(JsonNumber::NegInt(n)) => Json::Int(n as int),
        JsonValue::Number(JsonNumber::Float(t)) => Json::Float(t@),
        JsonValue::Str(s) => Json::Str(s@),
        JsonValue::Array(items) => Json::Array(json_of_items(items@)),
        JsonValue::Object(members) => Json::Object(json_of_members(members@)),
    }
}

/// The models of a sequence of values.
pub open spec fn json_of_items(s: Seq<JsonValue>) -> Seq<Json>
    decreases s,
{
    if s.len() == 0 {
        Seq::empty()
    } else {
        json_of_items(s.drop_last()).push(json_of(s[s.len() - 1]))
    }
}

/// The map that a sequence of members stands for: a later member of a name
/// replaces an earlier one.
pub open spec fn json_of_members(s: Seq<(String, JsonValue)>) -> Map<Seq<char>, Json>
    decreases s,
{
    if s.len() == 0 {
        Map::empty()
    } else {
        json_of_members(s.drop_last()).insert(s[s.len() - 1].0@, json_of(s[s.len() - 1].1))
    }
}

impl View for JsonValue {
    type V = Json;

    open spec fn view(&self) -> Json {
        json_of(*self)
    }
}

/// The members of an object model, or the empty map for any other value.
pub open spec fn members_of(j: Json) -> Map<Seq<char>, Json> {
    match j {
        Json::Object(m) => m,
        _ => Map::empty(),
    }
}

/// The member `key` of `j`, where `j` is an object that has one.
pub open spec fn json_get(j: Json, key: Seq<char>) -> Option<Json> {
    match j {
        Json::Object(m) => if m.contains_key(key) {
            Some(m[key])
        } else {
            None
        },
        _ => None,
    }
}

/// `m` with the member `key` set to `v` when there is one.
pub open spec fn insert_opt(m: Map<Seq<char>, Json>, key: Seq<char>, v: Option<Json>) -> Map<Seq<char>, Json> {
    match v {
        Some(j) => m.insert(key, j),
        None => m,
    }
}

/// The model of an optional value.
pub open spec fn opt_json(o: Option<JsonValue>) -> Option<Json> {
    match o {
        Some(v) => Some(v@),
        None => None,
    }
}

/// The model of an array of signed integers.
pub open spec fn ints_json(s: Seq<i64>) -> Json {
    Json::Array(Seq::new(s.len(), |i: int| Json::Int(s[i] as int)))
}

/// The model of an array of unsigned integers.
pub open spec fn uints_json(s: Seq<u64>) -> Json {
    Json::Array(Seq::new(s.len(), |i: int| Json::Int(s[i] as int)))
}

/// The model of an array of strings.
pub open spec fn strs_json(s: Seq<String>) -> Json {
    Json::Array(Seq::new(s.len(), |i: int| Json::Str(s[i]@)))
}

/// The model of an optional string.
pub open spec fn opt_str_json(o: Option<String>) -> Option<Json> {
    match o {
        Some(s) => Some(Json::Str(s@)),
        None => None,
    }
}

/// The text of a string model.
pub open spec fn json_as_str(j: Json) -> Option<Seq<char>> {
    match j {
        Json::Str(s) => Some(s),
        _ => None,
    }
}

/// The integer of a number model that fits in an `i64`.
pub open spec fn json_as_i64(j: Json) -> Option<int> {
    match j {
        Json::Int(n) => if i64::MIN <= n <= i64::MAX {
            Some(n)
        } else {
            None
        },
        _ => None,
    }
}

/// The items of an array model.
pub open spec fn json_as_array(j: Json) -> Option<Seq<Json>> {
    match j {
        Json::Array(items) => Some(items),
        _ => None,
    }
}

/// The member `key` of `j` read as a string, the chain `j.get(key)?.as_str()`.
pub open spec fn json_get_str(j: Json, key: Seq<char>) -> Option<Seq<char>> {
    match json_get(j, key) {
        Some(v) => json_as_str(v),
        None => None,
    }
}

/// The models of a sequence of values are the models of its items, one by one.
pub proof fn lemma_items_view(s: Seq<JsonValue>)
    ensures
        json_of_items(s).len() == s.len(),
        forall|i: int| 0 <= i < s.len() ==> #[trigger] json_of_items(s)[i] == json_of(s[i]),
    decreases s.len(),
{
    if s.len() > 0 {
        lemma_items_view(s.drop_last());
    }
}

/// Reading a member back after setting it gives what was set, and setting a
/// member leaves every other member as it was.
pub proof fn lemma_get_after_insert(m: Map<Seq<char>, Json>, key: Seq<char>, value: Json, other: Seq<char>)
    requires
        other != key,
    ensures
        json_get(Json::Object(m.insert(key, value)), key) == Some(value),
        json_get(Json::Object(m.insert(key, value)), other) == json_get(Json::Object(m), other),
{
}

proof fn lemma_items_push(s: Seq<JsonValue>, v: JsonValue)
    ensures
        json_of_items(s.push(v)) == json_of_items(s).push(json_of(v)),
{
    assert(s.push(v).drop_last() =~= s);
}

proof fn lemma_members_push(s: Seq<(String, JsonValue)>, k: String, v: JsonValue)
    ensures
        json_of_members(s.push((k, v))) == json_of_members(s).insert(k@, json_of(v)),
{
    assert(s.push((k, v)).drop_last() =~= s);
}

/// A name that no member from index `i` on carries does not change what the
/// members up to `i` say of it.
proof fn lemma_members_tail_absent(s: Seq<(String, JsonValue)>, i: int, key: Seq<char>)
    requires
        0 <= i <= s.len(),
        forall|j: int| i <= j < s.len() ==> #[trigger] s[j].0@ != key,
    ensures
        json_of_members(s).contains_key(key) == json_of_members(s.take(i)).contains_key(key),
        json_of_members(s).contains_key(key) ==> json_of_members(s)[key] == json_of_members(
            s.take(i),
        )[key],
    decreases s.len() - i,
{
    if i < s.len() {
        let t = s.take(i + 1);
        assert(t.drop_last() =~= s.take(i));
        assert(t[t.len() - 1] == s[i]);
        lemma_members_tail_absent(s, i + 1, key);
    } else {
        assert(s.take(i) =~= s);
    }
}

impl JsonNumber {
    /// A copy of the number.
    pub fn copy(&self) -> (res: JsonNumber)
        ensures
            res == *self,
    {
        match self {
            JsonNumber::PosInt(n) => JsonNumber::PosInt(*n),
            JsonNumber::NegInt(n) => JsonNumber::NegInt(*n),
            JsonNumber::Float(t) => JsonNumber::Float(t.clone()),
        }
    }
}

impl JsonValue {
    /// The JSON `null`.
    pub fn null() -> (res: JsonValue)
        ensures
            res@ == Json::Null,
    {
        JsonValue::Null
    }

    /// A boolean.
    pub fn from_bool(b: bool) -> (res: JsonValue)
        ensures
            res@ == Json::Bool(b),
    {
        JsonValue::Bool(b)
    }

    /// A signed integer, stored as the wire format stores it.
    pub fn from_i64(n: i64) -> (res: JsonValue)
        ensures
            res@ == Json::Int(n as int),
    {
        if n < 0 {
            JsonValue::Number(JsonNumber::NegInt(n))
        } else {
            JsonValue::Number(JsonNumber::PosInt(n as u64))
        }
    }

    /// An unsigned integer.
    pub fn from_u64(n: u64) -> (res: JsonValue)
        ensures
            res@ == Json::Int(n as int),
    {
        JsonValue::Number(JsonNumber::PosInt(n))
    }

    /// A string copied from `s`.
    pub fn from_str(s: &str) -> (res: JsonValue)
        ensures
            res@ == Json::Str(s@),
    {
        JsonValue::Str(s.to_owned())
    }

    /// A string.
    pub fn from_string(s: String) -> (res: JsonValue)
        ensures
            res@ == Json::Str(s@),
    {
        JsonValue::Str(s)
    }

    /// A string, when there is one.
    pub fn from_opt_string(o: Option<String>) -> (res: Option<JsonValue>)
        ensures
            opt_json(res) == opt_str_json(o),
    {
        match o {
            Some(s) => Some(JsonValue::Str(s)),
            None => None,
        }
    }

    /// An array of the given items.
    pub fn from_items(items: Vec<JsonValue>) -> (res: JsonValue)
        ensures
            res@ == Json::Array(json_of_items(items@)),
    {
        JsonValue::Array(items)
    }

    /// An array of signed integers.
    pub fn from_i64s(ns: &Vec<i64>) -> (res: JsonValue)
        ensures
            res@ == ints_json(ns@),
    {
        let mut items: Vec<JsonValue> = Vec::new();
        for i in 0..ns.len()
            invariant
                json_of_items(items@) == Seq::new(i as nat, |k: int| Json::Int(ns@[k] as int)),
        {
            let v = JsonValue::from_i64(ns[i]);
            proof {
                lemma_items_push(items@, v);
            }
            items.push(v);
            assert(json_of_items(items@) =~= Seq::new((i + 1) as nat, |k: int| Json::Int(ns@[k] as int)));
        }
        assert(Seq::new(ns@.len(), |k: int| Json::Int(ns@[k] as int)) =~= Seq::new(ns.len() as nat, |k: int| Json::Int(ns@[k] as int)));
        JsonValue::Array(items)
    }

    /// An array of unsigned integers.
    pub fn from_u64s(ns: &Vec<u64>) -> (res: JsonValue)
        ensures
            res@ == uints_json(ns@),
    {
        let mut items: Vec<JsonValue> = Vec::new();
        for i in 0..ns.len()
            invariant
                json_of_items(items@) == Seq::new(i as nat, |k: int| Json::Int(ns@[k] as int)),
        {
            let v = JsonValue::from_u64(ns[i]);
            proof {
                lemma_items_push(items@, v);
            }
            items.push(v);
            assert(json_of_items(items@) =~= Seq::new((i + 1) as nat, |k: int| Json::Int(ns@[k] as int)));
        }
        JsonValue::Array(items)
    }

    /// An array of byte values.
    pub fn from_bytes(ns: &Vec<u8>) -> (res: JsonValue)
        ensures
            res@ == Json::Array(Seq::new(ns@.len(), |i: int| Json::Int(ns@[i] as int))),
    {
        let mut items: Vec<JsonValue> = Vec::new();
        for i in 0..ns.len()
            invariant
                json_of_items(items@) == Seq::new(i as nat, |k: int| Json::Int(ns@[k] as int)),
        {
            let v = JsonValue::from_u64(ns[i] as u64);
            proof {
                lemma_items_push(items@, v);
            }
            items.push(v);
            assert(json_of_items(items@) =~= Seq::new((i + 1) as nat, |k: int| Json::Int(ns@[k] as int)));
        }
        JsonValue::Array(items)
    }

    /// An array of strings.
    pub fn from_strings(ss: &Vec<String>) -> (res: JsonValue)
        ensures
            res@ == strs_json(ss@),
    {
        let mut items: Vec<JsonValue> = Vec::new();
        for i in 0..ss.len()
            invariant
                json_of_items(items@) == Seq::new(i as nat, |k: int| Json::Str(ss@[k]@)),
        {
            let v = JsonValue::from_str(ss[i].as_str());
            proof {
                lemma_items_push(items@, v);
            }
            items.push(v);
            assert(json_of_items(items@) =~= Seq::new((i + 1) as nat, |k: int| Json::Str(ss@[k]@)));
        }
        JsonValue::Array(items)
    }

    /// An object without members.
    pub fn object() -> (res: JsonValue)
        ensures
            res@ == Json::Object(Map::empty()),
    {
        JsonValue::Object(Vec::new())
    }

    /// Whether the value is an object.
    pub fn is_object(&self) -> (res: bool)
        ensures
            res == self@ is Object,
    {
        match self {
            JsonValue::Object(_) => true,
            _ => false,
        }
    }

    /// Sets the member `key` of an object to `value`.
    pub fn insert(&mut self, key: &str, value: JsonValue)
        requires
            old(self)@ is Object,
        ensures
            final(self)@ == Json::Object(members_of(old(self)@).insert(key@, value@)),
    {
        match self {
            JsonValue::Object(members) => {
                let k = key.to_owned();
                proof {
                    lemma_members_push(members@, k, value);
                }
                members.push((k, value));
            },
            _ => {},
        }
    }

    /// This object with the member `key` set to `value`.
    pub fn with(self, key: &str, value: JsonValue) -> (res: JsonValue)
        requires
            self@ is Object,
        ensures
            res@ == Json::Object(members_of(self@).insert(key@, value@)),
    {
        let mut res = self;
        res.insert(key, value);
        res
    }

    /// This object with the member `key` set to `value` when there is one.
    pub fn with_opt(self, key: &str, value: Option<JsonValue>) -> (res: JsonValue)
        requires
            self@ is Object,
        ensures
            res@ == Json::Object(insert_opt(members_of(self@), key@, opt_json(value))),
    {
        match value {
            Some(v) => self.with(key, v),
            None => self,
        }
    }

    /// This object with every member of the object `other` set, replacing
    /// members of the same names.
    pub fn merge_from(&mut self, other: &JsonValue)
        requires
            old(self)@ is Object,
            other@ is Object,
        ensures
            final(self)@ == Json::Object(members_of(old(self)@).union_prefer_right(members_of(other@))),
    {
        match other {
            JsonValue::Object(members) => {
                let ghost base = members_of(self@);
                assert(base.union_prefer_right(json_of_members(members@.take(0))) =~= base);
                for i in 0..members.len()
                    invariant
                        self@ == Json::Object(base.union_prefer_right(json_of_members(members@.take(i as int)))),
                {
                    let v = members[i].1.deep_copy();
                    self.insert(members[i].0.as_str(), v);
                    proof {
                        let t = members@.take(i + 1);
                        assert(t.drop_last() =~= members@.take(i as int));
                        assert(t.last() == members@[i as int]);
                        assert(base.union_prefer_right(json_of_members(members@.take(i as int))).insert(
                            members@[i as int].0@,
                            json_of(members@[i as int].1),
                        ) =~= base.union_prefer_right(json_of_members(t)));
                    }
                }
                assert(members@.take(members.len() as int) =~= members@);
            },
            _ => {},
        }
    }

    /// The member `key` of an object.
    #[verifier::loop_isolation(false)]
    pub fn get(&self, key: &str) -> (res: Option<&JsonValue>)
        ensures
            match res {
                Some(r) => json_get(self@, key@) == Some(r@),
                None => json_get(self@, key@) is None,
            },
    {
        match self {
            JsonValue::Object(members) => {
                let k = key.to_owned();
                let mut i: usize = members.len();
                while i > 0
                    invariant
                        i <= members@.len(),
                        k@ == key@,
                        forall|j: int| i <= j < members@.len() ==> #[trigger] members@[j].0@ != key@,
                    decreases i,
                {
                    i = i - 1;
                    if members[i].0 == k {
                        proof {
                            lemma_members_tail_absent(members@, i + 1, key@);
                            let t = members@.take(i + 1);
                            assert(t.drop_last() =~= members@.take(i as int));
                            assert(t[t.len() - 1] == members@[i as int]);
                            assert(members@[i as int].0@ == key@);
                            assert(json_of_members(t) == json_of_members(members@.take(i as int)).insert(key@, json_of(members@[i as int].1)));
                            assert(json_of_members(members@).contains_key(key@));
                            assert(self@ == Json::Object(json_of_members(members@)));
                        }
                        return Some(&members[i].1);
                    }
                }
                proof {
                    lemma_members_tail_absent(members@, 0, key@);
                    assert(members@.take(0) =~= Seq::<(String, JsonValue)>::empty());
                }
                None
            },
            _ => None,
        }
    }

    /// The text of a string.
    pub fn as_str(&self) -> (res: Option<&str>)
        ensures
            match res {
                Some(s) => json_as_str(self@) == Some(s@),
                None => json_as_str(self@) is None,
            },
    {
        match self {
            JsonValue::Str(s) => Some(s.as_str()),
            _ => None,
        }
    }

    /// The integer of a number that fits in an `i64`.
    pub fn as_i64(&self) -> (res: Option<i64>)
        ensures
            match res {
                Some(n) => json_as_i64(self@) == Some(n as int),
                None => json_as_i64(self@) is None,
            },
    {
        match self {
            JsonValue::Number(JsonNumber::PosInt(n)) => if *n <= i64::MAX as u64 {
                Some(*n as i64)
            } else {
                None
            },
            JsonValue::Number(JsonNumber::NegInt(n)) => Some(*n),
            _ => None,
        }
    }

    /// The items of an array.
    pub fn as_array(&self) -> (res: Option<&Vec<JsonValue>>)
        ensures
            match res {
                Some(items) => json_as_array(self@) == Some(json_of_items(items@)),
                None => json_as_array(self@) is None,
            },
    {
        match self {
            JsonValue::Array(items) => Some(items),
            _ => None,
        }
    }

    /// A copy of the value with the same model.
    #[verifier::loop_isolation(false)]
    pub fn deep_copy(&self) -> (res: JsonValue)
        ensures
            res@ == self@,
        decreases self,
    {
        match self {
            JsonValue::Null => JsonValue::Null,
            JsonValue::Bool(b) => JsonValue::Bool(*b),
            JsonValue::Number(n) => JsonValue::Number(n.copy()),
            JsonValue::Str(s) => JsonValue::Str(s.clone()),
            JsonValue::Array(items) => {
                let mut out: Vec<JsonValue> = Vec::new();
                for i in 0..items.len()
                    invariant
                        json_of_items(out@) == json_of_items(items@.take(i as int)),
                {
                    let v = items[i].deep_copy();
                    proof {
                        lemma_items_push(out@, v);
                        let t = items@.take(i + 1);
                        assert(t.drop_last() =~= items@.take(i as int));
                        assert(t[t.len() - 1] == items@[i as int]);
                    }
                    out.push(v);
                }
                assert(items@.take(items.len() as int) =~= items@);
                JsonValue::Array(out)
            },
            JsonValue::Object(members) => {
                let mut out: Vec<(String, JsonValue)> = Vec::new();
                for i in 0..members.len()
                    invariant
                        json_of_members(out@) == json_of_members(members@.take(i as int)),
                {
                    let k = members[i].0.clone();
                    let v = members[i].1.deep_copy();
                    proof {
                        lemma_members_push(out@, k, v);
                        let t = members@.take(i + 1);
                        assert(t.drop_last() =~= members@.take(i as int));
                        assert(t[t.len() - 1] == members@[i as int]);
                    }
                    out.push((k, v));
                }
                assert(members@.take(members.len() as int) =~= members@);
                JsonValue::Object(out)
            },
        }
    }
}

} // verus!
