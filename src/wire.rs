//! Field access on structured values, shared by the protocol decoders.
use vstd::prelude::*;
use crate::error::DecodeError;
use crate::value::{Number, Value};

verus! {

/// The entries of an object, in wire order.
pub type Fields = Vec<(String, Value)>;

/// The value of the first entry at or after `i` whose key is `key`.
pub open spec fn lookup_from(o: Seq<(String, Value)>, key: Seq<char>, i: int) -> Option<Value>
    decreases o.len() - i,
{
    if i < 0 || i >= o.len() {
        None
    } else if o[i].0@ == key {
        Some(o[i].1)
    } else {
        lookup_from(o, key, i + 1)
    }
}

/// The value of the first entry of `o` whose key is `key`.
pub open spec fn lookup(o: Seq<(String, Value)>, key: Seq<char>) -> Option<Value> {
    lookup_from(o, key, 0)
}

/// A required boolean field.
pub open spec fn field_bool(f: Option<Value>) -> Result<bool, DecodeError> {
    match f {
        None => Err(DecodeError::MissingRequiredField),
        Some(Value::Bool(b)) => Ok(b),
        Some(_) => Err(DecodeError::TypeMismatch),
    }
}

/// The integer that a number stands for, if it is one.
pub open spec fn integer_of(n: Number) -> Option<int> {
    match n {
        Number::PosInt(u) => Some(u as int),
        Number::NegInt(i) => Some(i as int),
        Number::Float(_) => None,
    }
}

/// A required integer field whose value must lie in `lo..=hi`.
pub open spec fn field_int(f: Option<Value>, lo: int, hi: int) -> Result<int, DecodeError> {
    match f {
        None => Err(DecodeError::MissingRequiredField),
        Some(Value::Number(n)) => match integer_of(n) {
            Some(i) => if lo <= i && i <= hi {
                Ok(i)
            } else {
                Err(DecodeError::TypeMismatch)
            },
            None => Err(DecodeError::TypeMismatch),
        },
        Some(_) => Err(DecodeError::TypeMismatch),
    }
}

/// A required integer field that must fit a `i64`.
pub open spec fn field_i64(f: Option<Value>) -> Result<i64, DecodeError> {
    match field_int(f, i64::MIN as int, i64::MAX as int) {
        Ok(i) => Ok(i as i64),
        Err(e) => Err(e),
    }
}

/// A required integer field that must fit a `u64`.
pub open spec fn field_u64(f: Option<Value>) -> Result<u64, DecodeError> {
    match field_int(f, 0, u64::MAX as int) {
        Ok(i) => Ok(i as u64),
        Err(e) => Err(e),
    }
}

/// A required integer field that must fit a `i32`.
pub open spec fn field_i32(f: Option<Value>) -> Result<i32, DecodeError> {
    match field_int(f, i32::MIN as int, i32::MAX as int) {
        Ok(i) => Ok(i as i32),
        Err(e) => Err(e),
    }
}

/// A required integer field that must fit a `u8`.
pub open spec fn field_u8(f: Option<Value>) -> Result<u8, DecodeError> {
    match field_int(f, 0, u8::MAX as int) {
        Ok(i) => Ok(i as u8),
        Err(e) => Err(e),
    }
}

/// A required numeric field of any kind (integer or binary64).
pub open spec fn field_number(f: Option<Value>) -> Result<Number, DecodeError> {
    match f {
        None => Err(DecodeError::MissingRequiredField),
        Some(Value::Number(n)) => Ok(n),
        Some(_) => Err(DecodeError::TypeMismatch),
    }
}

/// A required string field.
pub open spec fn field_str(f: Option<Value>) -> Result<String, DecodeError> {
    match f {
        None => Err(DecodeError::MissingRequiredField),
        Some(Value::Str(s)) => Ok(s),
        Some(_) => Err(DecodeError::TypeMismatch),
    }
}

/// An optional string field: absent and null both read as absent.
pub open spec fn field_opt_str(f: Option<Value>) -> Result<Option<String>, DecodeError> {
    match f {
        None => Ok(None),
        Some(Value::Null) => Ok(None),
        Some(Value::Str(s)) => Ok(Some(s)),
        Some(_) => Err(DecodeError::TypeMismatch),
    }
}

/// A required nested object field, decoded by `decode`.
pub open spec fn field_nested<T>(f: Option<Value>, decode: spec_fn(Value) -> Result<T, DecodeError>) -> Result<T, DecodeError> {
    match f {
        None => Err(DecodeError::MissingRequiredField),
        Some(v) => decode(v),
    }
}

/// The error of a field's decoding, if it failed.
pub open spec fn err_of<T>(r: Result<T, DecodeError>) -> Option<DecodeError> {
    match r {
        Ok(_) => None,
        Err(e) => Some(e),
    }
}

/// The index of the first entry of `o` whose key is `key`.
pub fn find_field(o: &Fields, key: &str) -> (r: Option<usize>)
    ensures
        match r {
            Some(i) => i < o@.len() && lookup(o@, key@) == Some(o@[i as int].1),
            None => lookup(o@, key@) is None,
        },
{
    let k = key.to_owned();
    let mut i: usize = 0;
    while i < o.len()
        invariant
            i <= o@.len(),
            k@ == key@,
            lookup(o@, key@) == lookup_from(o@, key@, i as int),
        decreases o@.len() - i,
    {
        if o[i].0 == k {
            return Some(i);
        }
        i = i + 1;
    }
    None
}

/// Reads a required boolean field.
pub fn read_bool(o: &Fields, key: &str) -> (r: Result<bool, DecodeError>)
    ensures
        r == field_bool(lookup(o@, key@)),
{
    match find_field(o, key) {
        None => Err(DecodeError::MissingRequiredField),
        Some(i) => match &o[i].1 {
            Value::Bool(b) => Ok(*b),
            _ => Err(DecodeError::TypeMismatch),
        },
    }
}

/// Reads a required numeric field of any kind.
pub fn read_number(o: &Fields, key: &str) -> (r: Result<Number, DecodeError>)
    ensures
        r == field_number(lookup(o@, key@)),
{
    match find_field(o, key) {
        None => Err(DecodeError::MissingRequiredField),
        Some(i) => match &o[i].1 {
            Value::Number(n) => Ok(*n),
            _ => Err(DecodeError::TypeMismatch),
        },
    }
}

/// Reads a required integer field that must fit an `i64`.
pub fn read_i64(o: &Fields, key: &str) -> (r: Result<i64, DecodeError>)
    ensures
        r == field_i64(lookup(o@, key@)),
{
    match find_field(o, key) {
        None => Err(DecodeError::MissingRequiredField),
        Some(i) => match &o[i].1 {
            Value::Number(Number::PosInt(u)) => if *u <= i64::MAX as u64 {
                Ok(*u as i64)
            } else {
                Err(DecodeError::TypeMismatch)
            },
            Value::Number(Number::NegInt(n)) => Ok(*n),
            _ => Err(DecodeError::TypeMismatch),
        },
    }
}

/// Reads a required integer field that must fit a `u64`.
pub fn read_u64(o: &Fields, key: &str) -> (r: Result<u64, DecodeError>)
    ensures
        r == field_u64(lookup(o@, key@)),
{
    match find_field(o, key) {
        None => Err(DecodeError::MissingRequiredField),
        Some(i) => match &o[i].1 {
            Value::Number(Number::PosInt(u)) => Ok(*u),
            Value::Number(Number::NegInt(n)) => if *n >= 0 {
                Ok(*n as u64)
            } else {
                Err(DecodeError::TypeMismatch)
            },
            _ => Err(DecodeError::TypeMismatch),
        },
    }
}

/// Reads a required integer field that must fit an `i32`.
pub fn read_i32(o: &Fields, key: &str) -> (r: Result<i32, DecodeError>)
    ensures
        r == field_i32(lookup(o@, key@)),
{
    match read_i64(o, key) {
        Ok(n) => if i32::MIN as i64 <= n && n <= i32::MAX as i64 {
            Ok(n as i32)
        } else {
            Err(DecodeError::TypeMismatch)
        },
        Err(e) => Err(e),
    }
}

/// Reads a required integer field that must fit a `u8`.
pub fn read_u8(o: &Fields, key: &str) -> (r: Result<u8, DecodeError>)
    ensures
        r == field_u8(lookup(o@, key@)),
{
    match read_u64(o, key) {
        Ok(n) => if n <= u8::MAX as u64 {
            Ok(n as u8)
        } else {
            Err(DecodeError::TypeMismatch)
        },
        Err(e) => Err(e),
    }
}

/// Reads a required string field.
pub fn read_str(o: &Fields, key: &str) -> (r: Result<String, DecodeError>)
    ensures
        r == field_str(lookup(o@, key@)),
{
    match find_field(o, key) {
        None => Err(DecodeError::MissingRequiredField),
        Some(i) => match &o[i].1 {
            Value::Str(s) => Ok(s.clone()),
            _ => Err(DecodeError::TypeMismatch),
        },
    }
}

/// Reads an optional string field.
pub fn read_opt_str(o: &Fields, key: &str) -> (r: Result<Option<String>, DecodeError>)
    ensures
        r == field_opt_str(lookup(o@, key@)),
{
    match find_field(o, key) {
        None => Ok(None),
        Some(i) => match &o[i].1 {
            Value::Null => Ok(None),
            Value::Str(s) => Ok(Some(s.clone())),
            _ => Err(DecodeError::TypeMismatch),
        },
    }
}

/// Whether a string reads exactly as a literal.
pub fn str_is(s: &String, lit: &str) -> (r: bool)
    ensures
        r == (s@ == lit@),
{
    let t = lit.to_owned();
    *s == t
}

/// Whether every element of `a` is a string.
pub open spec fn all_strings(a: Seq<Value>) -> bool {
    forall|i: int| 0 <= i < a.len() ==> (#[trigger] a[i]) is Str
}

/// A required list of strings.
pub open spec fn field_str_list(f: Option<Value>) -> Result<Seq<String>, DecodeError> {
    match f {
        None => Err(DecodeError::MissingRequiredField),
        Some(Value::Array(a)) => if all_strings(a@) {
            Ok(a@.map_values(|x: Value| x->Str_0))
        } else {
            Err(DecodeError::TypeMismatch)
        },
        Some(_) => Err(DecodeError::TypeMismatch),
    }
}

/// Reads a required list of strings.
pub fn read_str_list(o: &Fields, key: &str) -> (r: Result<Vec<String>, DecodeError>)
    ensures
        match r {
            Ok(l) => field_str_list(lookup(o@, key@)) == Ok::<Seq<String>, DecodeError>(l@),
            Err(e) => field_str_list(lookup(o@, key@)) == Err::<Seq<String>, DecodeError>(e),
        },
{
    match find_field(o, key) {
        None => Err(DecodeError::MissingRequiredField),
        Some(k) => match &o[k].1 {
            Value::Array(a) => {
                let mut out: Vec<String> = Vec::new();
                let mut i: usize = 0;
                while i < a.len()
                    invariant
                        i <= a@.len(),
                        lookup(o@, key@) == Some(Value::Array(*a)),
                        forall|j: int| 0 <= j < i ==> (#[trigger] a@[j]) is Str,
                        out@ == a@.subrange(0, i as int).map_values(|x: Value| x->Str_0),
                    decreases a@.len() - i,
                {
                    match &a[i] {
                        Value::Str(s) => out.push(s.clone()),
                        _ => {
                            assert(!all_strings(a@)) by {
                                assert(!(a@[i as int] is Str));
                            }
                            return Err(DecodeError::TypeMismatch);
                        },
                    }
                    assert(a@.subrange(0, i + 1) == a@.subrange(0, i as int).push(a@[i as int]));
                    i = i + 1;
                }
                assert(a@.subrange(0, i as int) == a@);
                Ok(out)
            },
            _ => Err(DecodeError::TypeMismatch),
        },
    }
}

/// Whether the entries of `o` are exactly `keys` paired with `vals`, in order.
pub open spec fn entries_are(o: Seq<(String, Value)>, keys: Seq<Seq<char>>, vals: Seq<Value>) -> bool {
    &&& o.len() == keys.len()
    &&& keys.len() == vals.len()
    &&& forall|i: int| 0 <= i < o.len() ==> (#[trigger] o[i]).0@ == keys[i] && o[i].1 == vals[i]
}

proof fn lemma_lookup_from_distinct(o: Seq<(String, Value)>, keys: Seq<Seq<char>>, vals: Seq<Value>, i: int, j: int)
    requires
        entries_are(o, keys, vals),
        keys.no_duplicates(),
        0 <= j <= i < keys.len(),
    ensures
        lookup_from(o, keys[i], j) == Some(vals[i]),
    decreases i - j,
{
    if j < i {
        lemma_lookup_from_distinct(o, keys, vals, i, j + 1);
        assert(o[j].0@ == keys[j]);
    } else {
        assert(o[j].0@ == keys[j]);
    }
}

/// In an object whose keys are distinct, each key finds its own value.
pub proof fn lemma_lookup_distinct(o: Seq<(String, Value)>, keys: Seq<Seq<char>>, vals: Seq<Value>, i: int)
    requires
        entries_are(o, keys, vals),
        keys.no_duplicates(),
        0 <= i < keys.len(),
    ensures
        lookup(o, keys[i]) == Some(vals[i]),
{
    lemma_lookup_from_distinct(o, keys, vals, i, 0);
}

proof fn lemma_lookup_from_absent(o: Seq<(String, Value)>, keys: Seq<Seq<char>>, vals: Seq<Value>, k: Seq<char>, j: int)
    requires
        entries_are(o, keys, vals),
        !keys.contains(k),
        0 <= j <= keys.len(),
    ensures
        lookup_from(o, k, j) is None,
    decreases keys.len() - j,
{
    if j < keys.len() {
        lemma_lookup_from_absent(o, keys, vals, k, j + 1);
        assert(o[j].0@ == keys[j]);
    }
}

/// In an object without the key `k`, looking `k` up finds nothing.
pub proof fn lemma_lookup_absent(o: Seq<(String, Value)>, keys: Seq<Seq<char>>, vals: Seq<Value>, k: Seq<char>)
    requires
        entries_are(o, keys, vals),
        !keys.contains(k),
    ensures
        lookup(o, k) is None,
{
    lemma_lookup_from_absent(o, keys, vals, k, 0);
}

/// Past an entry whose key differs, the search goes on at the next one.
pub proof fn lemma_lookup_skip(o: Seq<(String, Value)>, k: Seq<char>, j: int)
    requires
        0 <= j < o.len(),
        o[j].0@ != k,
    ensures
        lookup_from(o, k, j) == lookup_from(o, k, j + 1),
{
}

/// At an entry whose key matches, the search ends with its value.
pub proof fn lemma_lookup_hit(o: Seq<(String, Value)>, k: Seq<char>, j: int)
    requires
        0 <= j < o.len(),
        o[j].0@ == k,
    ensures
        lookup_from(o, k, j) == Some(o[j].1),
{
}

/// The wire form of an integer.
pub fn encode_i64(n: i64) -> (r: Value)
    ensures
        r is Number,
        integer_of(r->Number_0) == Some(n as int),
        field_i64(Some(r)) == Ok::<i64, DecodeError>(n),
{
    if n >= 0 {
        Value::Number(Number::PosInt(n as u64))
    } else {
        Value::Number(Number::NegInt(n))
    }
}

/// The wire form of an unsigned integer.
pub fn encode_u64(n: u64) -> (r: Value)
    ensures
        field_u64(Some(r)) == Ok::<u64, DecodeError>(n),
        field_u8(Some(r)) == (if n <= u8::MAX { Ok::<u8, DecodeError>(n as u8) } else { Err(DecodeError::TypeMismatch) }),
{
    Value::Number(Number::PosInt(n))
}

/// The wire form of an optional string: null when absent.
pub fn encode_opt_str(s: &Option<String>) -> (r: Value)
    ensures
        field_opt_str(Some(r)) == Ok::<Option<String>, DecodeError>(*s),
{
    match s {
        None => Value::Null,
        Some(t) => Value::Str(t.clone()),
    }
}

/// The wire form of a list of strings.
pub fn encode_str_list(l: &Vec<String>) -> (r: Value)
    ensures
        field_str_list(Some(r)) == Ok::<Seq<String>, DecodeError>(l@),
{
    let mut a: Vec<Value> = Vec::new();
    let mut i: usize = 0;
    while i < l.len()
        invariant
            i <= l@.len(),
            a@.len() == i,
            forall|j: int| 0 <= j < i ==> (#[trigger] a@[j]) == Value::Str(l@[j]),
        decreases l@.len() - i,
    {
        a.push(Value::Str(l[i].clone()));
        i = i + 1;
    }
    assert(all_strings(a@));
    assert(a@.map_values(|x: Value| x->Str_0) =~= l@);
    Value::Array(a)
}

} // verus!
