//! A JSON document tree, and the reading of fields out of it.
//!
//! Numbers keep the text under which the document wrote them; they are read
//! as integers or as decimals from that text.

use crate::dec::{Dec, dec_parse, opt_parts, spec_dec_parse};
use crate::text::{copy_str, push_char, push_str, str_eq};
use vstd::prelude::*;

verus! {

#[verifier::external_type_specification]
#[verifier::external_body]
pub struct ExJsonValue(serde_json::Value);

/// A JSON value.
#[derive(Debug)]
pub enum Json {
    Null,
    Bool(bool),
    /// A number, by the text that writes it.
    Num(String),
    Str(String),
    Arr(Vec<Json>),
    /// The members of an object, keys in rising order as `serde_json` keeps
    /// them (a repeated key keeps its last value).
    Obj(Vec<(String, Json)>),
}

/// The value of the first member named `key`.
pub open spec fn obj_find(fields: Seq<(String, Json)>, key: Seq<char>) -> Option<Json>
    decreases fields.len(),
{
    if fields.len() == 0 {
        None
    } else if fields[0].0@ == key {
        Some(fields[0].1)
    } else {
        obj_find(fields.drop_first(), key)
    }
}

/// The member `key` of an object; `None` for anything else.
pub open spec fn spec_get(j: Json, key: Seq<char>) -> Option<Json> {
    match j {
        Json::Obj(fields) => obj_find(fields@, key),
        _ => None,
    }
}

/// The text of a string value.
pub open spec fn spec_as_str(j: Json) -> Option<Seq<char>> {
    match j {
        Json::Str(s) => Some(s@),
        _ => None,
    }
}

/// The value of a boolean.
pub open spec fn spec_as_bool(j: Json) -> Option<bool> {
    match j {
        Json::Bool(b) => Some(b),
        _ => None,
    }
}

/// A number read as a 64-bit signed integer.
pub open spec fn spec_as_i64(j: Json) -> Option<int> {
    match j {
        Json::Num(t) => spec_parse_i64(t@),
        _ => None,
    }
}

/// A number read as a 64-bit unsigned integer.
pub open spec fn spec_as_u64(j: Json) -> Option<int> {
    match j {
        Json::Num(t) => spec_parse_u64(t@),
        _ => None,
    }
}

/// A number read as a decimal.
pub open spec fn spec_num_dec(j: Json) -> Option<(int, int)> {
    match j {
        Json::Num(t) => spec_dec_parse(t@),
        _ => None,
    }
}

/// A string member read as text.
pub open spec fn get_str_spec(j: Json, key: Seq<char>) -> Option<Seq<char>> {
    match spec_get(j, key) {
        Some(v) => spec_as_str(v),
        None => None,
    }
}

/// An integer member.
pub open spec fn get_i64_spec(j: Json, key: Seq<char>) -> Option<int> {
    match spec_get(j, key) {
        Some(v) => spec_as_i64(v),
        None => None,
    }
}

/// A boolean member.
pub open spec fn get_bool_spec(j: Json, key: Seq<char>) -> Option<bool> {
    match spec_get(j, key) {
        Some(v) => spec_as_bool(v),
        None => None,
    }
}

/// A member holding a decimal either as a string or as a number.
pub open spec fn get_dec_spec(j: Json, key: Seq<char>) -> Option<(int, int)> {
    match spec_get(j, key) {
        Some(Json::Str(s)) => spec_dec_parse(s@),
        Some(Json::Num(t)) => spec_dec_parse(t@),
        _ => None,
    }
}

/// Whether every character of a text is an ASCII decimal digit.
pub open spec fn all_digits(s: Seq<char>) -> bool {
    forall|i: int| 0 <= i < s.len() ==> '0' <= #[trigger] s[i] && s[i] <= '9'
}

/// The value of a text of decimal digits, most significant first.
pub open spec fn digits_value(s: Seq<char>) -> int
    decreases s.len(),
{
    if s.len() == 0 {
        0
    } else {
        digits_value(s.drop_last()) * 10 + (s.last() as int - 48)
    }
}

/// The integer a text writes: an optional sign (`+`, or `-` when `signed`)
/// followed by at least one ASCII digit, and nothing else.
pub open spec fn spec_parse_int(s: Seq<char>, signed: bool) -> Option<int> {
    if s.len() > 0 && (s[0] == '+' || (signed && s[0] == '-')) {
        let d = s.drop_first();
        if d.len() > 0 && all_digits(d) {
            Some(if s[0] == '-' { -digits_value(d) } else { digits_value(d) })
        } else {
            None
        }
    } else if s.len() > 0 && all_digits(s) {
        Some(digits_value(s))
    } else {
        None
    }
}

/// What `str::parse::<i64>` yields on a text: the integer it writes, when
/// that fits in an `i64`.
#[verifier::opaque]
pub open spec fn spec_parse_i64(s: Seq<char>) -> Option<int> {
    match spec_parse_int(s, true) {
        Some(v) => if i64::MIN <= v && v <= i64::MAX { Some(v) } else { None },
        None => None,
    }
}

/// What `str::parse::<u64>` yields on a text: the integer it writes
/// (without a minus sign), when that fits in a `u64`.
#[verifier::opaque]
pub open spec fn spec_parse_u64(s: Seq<char>) -> Option<int> {
    match spec_parse_int(s, false) {
        Some(v) => if v <= u64::MAX { Some(v) } else { None },
        None => None,
    }
}

/// What `str::parse::<i32>` yields on a text: the integer it writes, when
/// that fits in an `i32`.
#[verifier::opaque]
pub open spec fn spec_parse_i32(s: Seq<char>) -> Option<int> {
    match spec_parse_int(s, true) {
        Some(v) => if i32::MIN <= v && v <= i32::MAX { Some(v) } else { None },
        None => None,
    }
}

/// What `serde_json::from_str::<Value>` yields on a text, as a tree.
pub uninterp spec fn spec_parse_json(s: Seq<char>) -> Option<Json>;

/// `str::parse::<i64>`, as `spec_parse_i64` states.
#[verifier::external_body]
pub(crate) fn parse_i64(s: &str) -> (r: Option<i64>)
    ensures
        match r {
            Some(n) => spec_parse_i64(s@) == Some(n as int),
            None => spec_parse_i64(s@) is None,
        },
{
    s.parse::<i64>().ok()
}

/// `str::parse::<i32>`, as `spec_parse_i32` states.
#[verifier::external_body]
pub(crate) fn parse_i32(s: &str) -> (r: Option<i32>)
    ensures
        match r {
            Some(n) => spec_parse_i32(s@) == Some(n as int),
            None => spec_parse_i32(s@) is None,
        },
{
    s.parse::<i32>().ok()
}

/// `str::parse::<u64>`, as `spec_parse_u64` states.
#[verifier::external_body]
pub(crate) fn parse_u64(s: &str) -> (r: Option<u64>)
    ensures
        match r {
            Some(n) => spec_parse_u64(s@) == Some(n as int),
            None => spec_parse_u64(s@) is None,
        },
{
    s.parse::<u64>().ok()
}

/// One-for-one copy of a `serde_json::Value` into a [`Json`] tree; numbers
/// keep the text that `serde_json` writes for them.
#[verifier::external_body]
fn value_to_json(v: &serde_json::Value) -> Json {
    match v {
        serde_json::Value::Null => Json::Null,
        serde_json::Value::Bool(b) => Json::Bool(*b),
        serde_json::Value::Number(n) => Json::Num(n.to_string()),
        serde_json::Value::String(s) => Json::Str(s.clone()),
        serde_json::Value::Array(a) => Json::Arr(a.iter().map(value_to_json).collect()),
        serde_json::Value::Object(m) => Json::Obj(
            m.iter().map(|(k, x)| (k.clone(), value_to_json(x))).collect(),
        ),
    }
}

/// `serde_json::from_str::<serde_json::Value>`: the document that a text
/// holds, when it holds one; the tree is named `spec_parse_json`.
#[verifier::external_body]
fn parse_json_text(text: &str) -> (r: Option<Json>)
    ensures
        r == spec_parse_json(text@),
{
    serde_json::from_str::<serde_json::Value>(text).ok().map(|v| value_to_json(&v))
}

impl Json {
    /// The document that a text holds, when it holds one.
    pub fn parse(text: &str) -> (r: Option<Json>)
        ensures
            r == spec_parse_json(text@),
    {
        parse_json_text(text)
    }

    /// The member `key` of an object (`Value::get`).
    pub fn get(&self, key: &str) -> (r: Option<&Json>)
        ensures
            match r {
                Some(v) => spec_get(*self, key@) == Some(*v),
                None => spec_get(*self, key@) is None,
            },
    {
        match self {
            Json::Obj(fields) => {
                let n = fields.len();
                let mut i: usize = 0;
                assert(fields@.subrange(0, n as int) =~= fields@);
                while i < n
                    invariant
                        n == fields@.len(),
                        *self == Json::Obj(*fields),
                        i <= n,
                        obj_find(fields@, key@) == obj_find(fields@.subrange(i as int, n as int), key@),
                    decreases n - i,
                {
                    let ghost rest = fields@.subrange(i as int, n as int);
                    assert(rest.drop_first() =~= fields@.subrange(i + 1, n as int));
                    assert(rest[0] == fields@[i as int]);
                    if str_eq(fields[i].0.as_str(), key) {
                        return Some(&fields[i].1);
                    }
                    i = i + 1;
                }
                None
            },
            _ => None,
        }
    }

    /// The text of a string value (`Value::as_str`).
    pub fn as_str(&self) -> (r: Option<&str>)
        ensures
            match r {
                Some(s) => spec_as_str(*self) == Some(s@),
                None => spec_as_str(*self) is None,
            },
    {
        match self {
            Json::Str(s) => Some(s.as_str()),
            _ => None,
        }
    }

    /// The value of a boolean (`Value::as_bool`).
    pub fn as_bool(&self) -> (r: Option<bool>)
        ensures
            r == spec_as_bool(*self),
    {
        match self {
            Json::Bool(b) => Some(*b),
            _ => None,
        }
    }

    /// A number read as a signed integer (`Value::as_i64`).
    pub fn as_i64(&self) -> (r: Option<i64>)
        ensures
            match r {
                Some(n) => spec_as_i64(*self) == Some(n as int),
                None => spec_as_i64(*self) is None,
            },
    {
        match self {
            Json::Num(t) => parse_i64(t.as_str()),
            _ => None,
        }
    }

    /// A number read as an unsigned integer (`Value::as_u64`).
    pub fn as_u64(&self) -> (r: Option<u64>)
        ensures
            match r {
                Some(n) => spec_as_u64(*self) == Some(n as int),
                None => spec_as_u64(*self) is None,
            },
    {
        match self {
            Json::Num(t) => parse_u64(t.as_str()),
            _ => None,
        }
    }

    /// The elements of an array (`Value::as_array`).
    pub fn as_array(&self) -> (r: Option<&Vec<Json>>)
        ensures
            match r {
                Some(a) => *self == Json::Arr(*a),
                None => !(*self is Arr),
            },
    {
        match self {
            Json::Arr(a) => Some(a),
            _ => None,
        }
    }

    /// A number read as a decimal, from the text that writes it.
    pub fn num_dec(&self) -> (r: Option<Dec>)
        ensures
            opt_parts(r) == spec_num_dec(*self),
            r matches Some(d) ==> d.wf(),
    {
        match self {
            Json::Num(t) => dec_parse(t.as_str()),
            _ => None,
        }
    }

    /// A string member, copied out.
    pub fn get_str(&self, key: &str) -> (r: Option<String>)
        ensures
            match r {
                Some(s) => get_str_spec(*self, key@) == Some(s@),
                None => get_str_spec(*self, key@) is None,
            },
    {
        match self.get(key) {
            Some(v) => match v.as_str() {
                Some(s) => Some(copy_str(s)),
                None => None,
            },
            None => None,
        }
    }

    /// An integer member.
    pub fn get_i64(&self, key: &str) -> (r: Option<i64>)
        ensures
            match r {
                Some(n) => get_i64_spec(*self, key@) == Some(n as int),
                None => get_i64_spec(*self, key@) is None,
            },
    {
        match self.get(key) {
            Some(v) => v.as_i64(),
            None => None,
        }
    }

    /// A boolean member.
    pub fn get_bool(&self, key: &str) -> (r: Option<bool>)
        ensures
            r == get_bool_spec(*self, key@),
    {
        match self.get(key) {
            Some(v) => v.as_bool(),
            None => None,
        }
    }

    /// A decimal member, written either as a string or as a number.
    pub fn get_dec(&self, key: &str) -> (r: Option<Dec>)
        ensures
            opt_parts(r) == get_dec_spec(*self, key@),
            r matches Some(d) ==> d.wf(),
    {
        match self.get(key) {
            Some(v) => match v {
                Json::Str(s) => dec_parse(s.as_str()),
                Json::Num(t) => dec_parse(t.as_str()),
                _ => None,
            },
            None => None,
        }
    }
}

/// An optional text field as a derived deserializer reads it: absent or
/// null is `None`, a string gives its text, anything else fails.
pub open spec fn spec_opt_str_field(j: Json, key: Seq<char>) -> Result<Option<Seq<char>>, ()> {
    match spec_get(j, key) {
        None => Ok(None),
        Some(Json::Null) => Ok(None),
        Some(Json::Str(s)) => Ok(Some(s@)),
        _ => Err(()),
    }
}

/// A required text field: a string gives its text, anything else fails.
pub open spec fn spec_str_field(j: Json, key: Seq<char>) -> Result<Seq<char>, ()> {
    match spec_get(j, key) {
        Some(Json::Str(s)) => Ok(s@),
        _ => Err(()),
    }
}

/// An optional integer field: absent or null is `None`, a number that reads
/// as an `i64` gives it, anything else fails.
pub open spec fn spec_opt_i64_field(j: Json, key: Seq<char>) -> Result<Option<int>, ()> {
    match spec_get(j, key) {
        None => Ok(None),
        Some(Json::Null) => Ok(None),
        Some(Json::Num(t)) => match spec_parse_i64(t@) {
            Some(n) => Ok(Some(n)),
            None => Err(()),
        },
        _ => Err(()),
    }
}

/// An optional boolean field.
pub open spec fn spec_opt_bool_field(j: Json, key: Seq<char>) -> Result<Option<bool>, ()> {
    match spec_get(j, key) {
        None => Ok(None),
        Some(Json::Null) => Ok(None),
        Some(Json::Bool(b)) => Ok(Some(b)),
        _ => Err(()),
    }
}

/// An optional decimal field, written as a string or a number.
pub open spec fn spec_opt_dec_field(j: Json, key: Seq<char>) -> Result<Option<(int, int)>, ()> {
    match spec_get(j, key) {
        None => Ok(None),
        Some(Json::Null) => Ok(None),
        Some(Json::Str(s)) => match spec_dec_parse(s@) {
            Some(p) => Ok(Some(p)),
            None => Err(()),
        },
        Some(Json::Num(t)) => match spec_dec_parse(t@) {
            Some(p) => Ok(Some(p)),
            None => Err(()),
        },
        _ => Err(()),
    }
}

/// Texts of an array of strings; fails on anything else.
pub open spec fn spec_str_array(j: Json) -> Result<Seq<Seq<char>>, ()> {
    match j {
        Json::Arr(items) => if forall|i: int| 0 <= i < items@.len() ==> (#[trigger] items@[i]) is Str {
            Ok(items@.map_values(|x: Json| spec_as_str(x)->0))
        } else {
            Err(())
        },
        _ => Err(()),
    }
}

/// Texts of an array of arrays of strings; fails on anything else.
pub open spec fn spec_str_array_array(j: Json) -> Result<Seq<Seq<Seq<char>>>, ()> {
    match j {
        Json::Arr(rows) => if forall|i: int| 0 <= i < rows@.len() ==> spec_str_array(#[trigger] rows@[i]) is Ok {
            Ok(rows@.map_values(|x: Json| spec_str_array(x)->Ok_0))
        } else {
            Err(())
        },
        _ => Err(()),
    }
}

/// The texts of a list of lists of strings.
pub open spec fn texts2(v: Seq<Vec<String>>) -> Seq<Seq<Seq<char>>> {
    v.map_values(|r: Vec<String>| r@.map_values(|s: String| s@))
}

/// The texts of a list of strings.
pub open spec fn texts1(v: Seq<String>) -> Seq<Seq<char>> {
    v.map_values(|s: String| s@)
}

impl Json {
    /// An optional text field (see [`spec_opt_str_field`]).
    pub fn opt_str_field(&self, key: &str) -> (r: Result<Option<String>, ()>)
        ensures
            match r {
                Ok(Some(s)) => spec_opt_str_field(*self, key@) == Ok::<Option<Seq<char>>, ()>(Some(s@)),
                Ok(None) => spec_opt_str_field(*self, key@) == Ok::<Option<Seq<char>>, ()>(None),
                Err(_) => spec_opt_str_field(*self, key@) is Err,
            },
    {
        match self.get(key) {
            None => Ok(None),
            Some(Json::Null) => Ok(None),
            Some(Json::Str(s)) => Ok(Some(copy_str(s.as_str()))),
            Some(_) => Err(()),
        }
    }

    /// A required text field (see [`spec_str_field`]).
    pub fn str_field(&self, key: &str) -> (r: Result<String, ()>)
        ensures
            match r {
                Ok(s) => spec_str_field(*self, key@) == Ok::<Seq<char>, ()>(s@),
                Err(_) => spec_str_field(*self, key@) is Err,
            },
    {
        match self.get(key) {
            Some(Json::Str(s)) => Ok(copy_str(s.as_str())),
            _ => Err(()),
        }
    }

    /// An optional integer field (see [`spec_opt_i64_field`]).
    pub fn opt_i64_field(&self, key: &str) -> (r: Result<Option<i64>, ()>)
        ensures
            match r {
                Ok(Some(n)) => spec_opt_i64_field(*self, key@) == Ok::<Option<int>, ()>(Some(n as int)),
                Ok(None) => spec_opt_i64_field(*self, key@) == Ok::<Option<int>, ()>(None),
                Err(_) => spec_opt_i64_field(*self, key@) is Err,
            },
    {
        match self.get(key) {
            None => Ok(None),
            Some(Json::Null) => Ok(None),
            Some(Json::Num(t)) => match parse_i64(t.as_str()) {
                Some(n) => Ok(Some(n)),
                None => Err(()),
            },
            Some(_) => Err(()),
        }
    }

    /// An optional boolean field (see [`spec_opt_bool_field`]).
    pub fn opt_bool_field(&self, key: &str) -> (r: Result<Option<bool>, ()>)
        ensures
            match r {
                Ok(b) => spec_opt_bool_field(*self, key@) == Ok::<Option<bool>, ()>(b),
                Err(_) => spec_opt_bool_field(*self, key@) is Err,
            },
    {
        match self.get(key) {
            None => Ok(None),
            Some(Json::Null) => Ok(None),
            Some(Json::Bool(b)) => Ok(Some(*b)),
            Some(_) => Err(()),
        }
    }

    /// An optional decimal field (see [`spec_opt_dec_field`]).
    pub fn opt_dec_field(&self, key: &str) -> (r: Result<Option<Dec>, ()>)
        ensures
            match r {
                Ok(Some(d)) => spec_opt_dec_field(*self, key@) == Ok::<Option<(int, int)>, ()>(Some(d.parts())) && d.wf(),
                Ok(None) => spec_opt_dec_field(*self, key@) == Ok::<Option<(int, int)>, ()>(None),
                Err(_) => spec_opt_dec_field(*self, key@) is Err,
            },
    {
        match self.get(key) {
            None => Ok(None),
            Some(Json::Null) => Ok(None),
            Some(Json::Str(s)) => match dec_parse(s.as_str()) {
                Some(d) => Ok(Some(d)),
                None => Err(()),
            },
            Some(Json::Num(t)) => match dec_parse(t.as_str()) {
                Some(d) => Ok(Some(d)),
                None => Err(()),
            },
            Some(_) => Err(()),
        }
    }

    /// Texts of an array of strings (see [`spec_str_array`]).
    pub fn str_array(&self) -> (r: Result<Vec<String>, ()>)
        ensures
            match r {
                Ok(v) => spec_str_array(*self) == Ok::<Seq<Seq<char>>, ()>(texts1(v@)),
                Err(_) => spec_str_array(*self) is Err,
            },
    {
        match self {
            Json::Arr(items) => {
                let mut out: Vec<String> = Vec::new();
                let n = items.len();
                let mut i: usize = 0;
                while i < n
                    invariant
                        n == items@.len(),
                        *self == Json::Arr(*items),
                        i <= n,
                        out@.len() == i,
                        forall|k: int| 0 <= k < i ==> (#[trigger] items@[k]) is Str && out@[k]@ == spec_as_str(items@[k])->0,
                    decreases n - i,
                {
                    match &items[i] {
                        Json::Str(s) => {
                            out.push(copy_str(s.as_str()));
                        },
                        _ => {
                            return Err(());
                        },
                    }
                    i = i + 1;
                }
                proof {
                    assert(texts1(out@) =~= items@.map_values(|x: Json| spec_as_str(x)->0));
                }
                Ok(out)
            },
            _ => Err(()),
        }
    }

    /// Texts of an array of arrays of strings (see [`spec_str_array_array`]).
    pub fn str_array_array(&self) -> (r: Result<Vec<Vec<String>>, ()>)
        ensures
            match r {
                Ok(v) => spec_str_array_array(*self) == Ok::<Seq<Seq<Seq<char>>>, ()>(texts2(v@)),
                Err(_) => spec_str_array_array(*self) is Err,
            },
    {
        match self {
            Json::Arr(rows) => {
                let mut out: Vec<Vec<String>> = Vec::new();
                let n = rows.len();
                let mut i: usize = 0;
                while i < n
                    invariant
                        n == rows@.len(),
                        *self == Json::Arr(*rows),
                        i <= n,
                        out@.len() == i,
                        forall|k: int| 0 <= k < i ==> spec_str_array(#[trigger] rows@[k]) is Ok && texts1(out@[k]@) == spec_str_array(rows@[k])->Ok_0,
                    decreases n - i,
                {
                    match rows[i].str_array() {
                        Ok(v) => {
                            out.push(v);
                        },
                        Err(_) => {
                            return Err(());
                        },
                    }
                    i = i + 1;
                }
                proof {
                    assert(texts2(out@) =~= rows@.map_values(|x: Json| spec_str_array(x)->Ok_0)) by {
                        assert forall|k: int| 0 <= k < out@.len() implies #[trigger] texts2(out@)[k] == rows@.map_values(|x: Json| spec_str_array(x)->Ok_0)[k] by {
                            assert(texts1(out@[k]@) =~= out@[k]@.map_values(|s: String| s@));
                        }
                    }
                }
                Ok(out)
            },
            _ => Err(()),
        }
    }
}


/// A field reader's result agrees with an optional text.
pub open spec fn opt_text_is(r: Result<Option<Seq<char>>, ()>, o: Option<String>) -> bool {
    r == Ok::<Option<Seq<char>>, ()>(
        match o {
            Some(s) => Some(s@),
            None => None,
        },
    )
}

/// A field reader's result agrees with an optional integer.
pub open spec fn opt_int_is(r: Result<Option<int>, ()>, o: Option<i64>) -> bool {
    r == Ok::<Option<int>, ()>(
        match o {
            Some(n) => Some(n as int),
            None => None,
        },
    )
}

/// A field reader's result agrees with an optional decimal.
pub open spec fn opt_dec_is(r: Result<Option<(int, int)>, ()>, o: Option<Dec>) -> bool {
    r == Ok::<Option<(int, int)>, ()>(opt_parts(o))
}

/// An optional unsigned integer field: absent or null is `None`, a number
/// that reads as a `u64` gives it, anything else fails.
pub open spec fn spec_opt_u64_field(j: Json, key: Seq<char>) -> Result<Option<int>, ()> {
    match spec_get(j, key) {
        None => Ok(None),
        Some(Json::Null) => Ok(None),
        Some(Json::Num(t)) => match spec_parse_u64(t@) {
            Some(n) => Ok(Some(n)),
            None => Err(()),
        },
        _ => Err(()),
    }
}

/// An optional 32-bit integer field: absent or null is `None`, a number
/// that reads as an `i32` gives it, anything else fails.
pub open spec fn spec_opt_i32_field(j: Json, key: Seq<char>) -> Result<Option<int>, ()> {
    match spec_get(j, key) {
        None => Ok(None),
        Some(Json::Null) => Ok(None),
        Some(Json::Num(t)) => match spec_parse_i32(t@) {
            Some(n) => Ok(Some(n)),
            None => Err(()),
        },
        _ => Err(()),
    }
}

impl Json {
    /// An optional unsigned integer field (see [`spec_opt_u64_field`]).
    pub fn opt_u64_field(&self, key: &str) -> (r: Result<Option<u64>, ()>)
        ensures
            match r {
                Ok(Some(n)) => spec_opt_u64_field(*self, key@) == Ok::<Option<int>, ()>(Some(n as int)),
                Ok(None) => spec_opt_u64_field(*self, key@) == Ok::<Option<int>, ()>(None),
                Err(_) => spec_opt_u64_field(*self, key@) is Err,
            },
    {
        match self.get(key) {
            None => Ok(None),
            Some(Json::Null) => Ok(None),
            Some(Json::Num(t)) => match parse_u64(t.as_str()) {
                Some(n) => Ok(Some(n)),
                None => Err(()),
            },
            Some(_) => Err(()),
        }
    }

    /// An optional 32-bit integer field (see [`spec_opt_i32_field`]).
    pub fn opt_i32_field(&self, key: &str) -> (r: Result<Option<i32>, ()>)
        ensures
            match r {
                Ok(Some(n)) => spec_opt_i32_field(*self, key@) == Ok::<Option<int>, ()>(Some(n as int)),
                Ok(None) => spec_opt_i32_field(*self, key@) == Ok::<Option<int>, ()>(None),
                Err(_) => spec_opt_i32_field(*self, key@) is Err,
            },
    {
        match self.get(key) {
            None => Ok(None),
            Some(Json::Null) => Ok(None),
            Some(Json::Num(t)) => match parse_i32(t.as_str()) {
                Some(n) => Ok(Some(n)),
                None => Err(()),
            },
            Some(_) => Err(()),
        }
    }
}

/// A hexadecimal digit, lower case.
pub open spec fn hex_digit(n: int) -> char {
    if n < 10 {
        (('0' as int) + n) as char
    } else {
        (('a' as int) + n - 10) as char
    }
}

/// A character as a JSON string writes it: quote, backslash and control
/// characters escaped (the short forms where JSON has one, `\u00XX`
/// otherwise), every other character as it is.
pub open spec fn json_escape_char(c: char) -> Seq<char> {
    if c == '"' {
        seq!['\\', '"']
    } else if c == '\\' {
        seq!['\\', '\\']
    } else if c == '\n' {
        seq!['\\', 'n']
    } else if c == '\r' {
        seq!['\\', 'r']
    } else if c == '\t' {
        seq!['\\', 't']
    } else if c == '\u{8}' {
        seq!['\\', 'b']
    } else if c == '\u{c}' {
        seq!['\\', 'f']
    } else if (c as u32) < 0x20 {
        seq!['\\', 'u', '0', '0', hex_digit(((c as u32) / 16) as int), hex_digit(((c as u32) % 16) as int)]
    } else {
        seq![c]
    }
}

/// The characters of a text as a JSON string writes them, without quotes.
pub open spec fn json_escape(s: Seq<char>) -> Seq<char>
    decreases s.len(),
{
    if s.len() == 0 {
        Seq::<char>::empty()
    } else {
        json_escape(s.drop_last()) + json_escape_char(s.last())
    }
}

/// A text as a JSON string, quotes included.
pub open spec fn json_quoted(s: Seq<char>) -> Seq<char> {
    seq!['"'] + json_escape(s) + seq!['"']
}

/// Appends a character as a JSON string writes it.
fn push_escaped(out: &mut String, c: char)
    ensures
        final(out)@ == old(out)@ + json_escape_char(c),
{
    if c == '"' {
        push_str(out, "\\\"");
    } else if c == '\\' {
        push_str(out, "\\\\");
    } else if c == '\n' {
        push_str(out, "\\n");
    } else if c == '\r' {
        push_str(out, "\\r");
    } else if c == '\t' {
        push_str(out, "\\t");
    } else if c == '\u{8}' {
        push_str(out, "\\b");
    } else if c == '\u{c}' {
        push_str(out, "\\f");
    } else if (c as u32) < 0x20 {
        let n = c as u32;
        push_str(out, "\\u00");
        push_char(out, hex_char(n / 16));
        push_char(out, hex_char(n % 16));
    } else {
        push_char(out, c);
    }
    proof {
        reveal_strlit("\\\"");
        reveal_strlit("\\\\");
        reveal_strlit("\\n");
        reveal_strlit("\\r");
        reveal_strlit("\\t");
        reveal_strlit("\\b");
        reveal_strlit("\\f");
        reveal_strlit("\\u00");
        assert(out@ =~= old(out)@ + json_escape_char(c));
    }
}

/// A lower-case hexadecimal digit.
fn hex_char(n: u32) -> (r: char)
    requires
        n < 16,
    ensures
        r == hex_digit(n as int),
{
    if n < 10 {
        char_of(48 + n)
    } else {
        char_of(87 + n)
    }
}

/// The character of an ASCII code.
fn char_of(n: u32) -> (r: char)
    requires
        n < 128,
    ensures
        r == (n as char),
        r as u32 == n,
{
    let b: u8 = n as u8;
    b as char
}

/// A text as a JSON string, quotes included (`serde_json` string output).
pub fn json_string(s: &str) -> (r: String)
    ensures
        r@ == json_quoted(s@),
{
    let n = s.unicode_len();
    let mut out = String::new();
    push_char(&mut out, '"');
    let mut i: usize = 0;
    while i < n
        invariant
            n == s@.len(),
            i <= n,
            out@ == seq!['"'] + json_escape(s@.subrange(0, i as int)),
        decreases n - i,
    {
        let c = s.get_char(i);
        push_escaped(&mut out, c);
        proof {
            let t = s@.subrange(0, i + 1);
            assert(t.drop_last() =~= s@.subrange(0, i as int));
            assert(t.last() == c);
        }
        i = i + 1;
    }
    assert(s@.subrange(0, n as int) =~= s@);
    push_char(&mut out, '"');
    out
}

/// An object of text members, in order: `{"k1":"v1","k2":"v2",...}`.
pub open spec fn json_text_object(p: Seq<(String, String)>) -> Seq<char> {
    seq!['{'] + json_members(p) + seq!['}']
}

/// The members of an object of texts, joined by `,`.
pub open spec fn json_members(p: Seq<(String, String)>) -> Seq<char>
    decreases p.len(),
{
    if p.len() == 0 {
        Seq::<char>::empty()
    } else if p.len() == 1 {
        json_quoted(p[0].0@) + seq![':'] + json_quoted(p[0].1@)
    } else {
        json_members(p.drop_last()) + seq![','] + json_quoted(p.last().0@) + seq![':'] + json_quoted(p.last().1@)
    }
}

/// Writes text members as a JSON object, in order.
pub fn json_text_object_of(params: &Vec<(String, String)>) -> (r: String)
    ensures
        r@ == json_text_object(params@),
{
    let n = params.len();
    let mut out = String::new();
    push_char(&mut out, '{');
    let mut i: usize = 0;
    while i < n
        invariant
            n == params@.len(),
            i <= n,
            out@ == seq!['{'] + json_members(params@.take(i as int)),
        decreases n - i,
    {
        let ghost pre = out@;
        if i > 0 {
            push_char(&mut out, ',');
        }
        let k = json_string(params[i].0.as_str());
        push_str(&mut out, k.as_str());
        push_char(&mut out, ':');
        let v = json_string(params[i].1.as_str());
        push_str(&mut out, v.as_str());
        proof {
            let t = params@.take(i + 1);
            assert(t.drop_last() =~= params@.take(i as int));
            assert(t.last() == params@[i as int]);
            if i == 0 {
                assert(json_members(params@.take(0)) =~= Seq::<char>::empty());
            }
            assert(out@ =~= seq!['{'] + json_members(t));
        }
        i = i + 1;
    }
    assert(params@.take(n as int) =~= params@);
    push_char(&mut out, '}');
    out
}

} // verus!
