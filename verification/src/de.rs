//! Strict structural deserialization: the helpers every entity reader is
//! built from, and the field-path-qualified error they report.
//!
//! Deserialization is strict: a field the schema does not recognize is an
//! error, a missing required field is an error, and a value of the wrong
//! shape is an error, each naming the dotted path of the table it was found
//! in.

use vstd::prelude::*;
use vstd::string::StringExecFns;

use crate::error::{Error, ErrorV};
use crate::raw::{dv_elems, dv_entries, lemma_dv_elems, lemma_dv_entries, RawVal, RawValue};
use crate::text::str_eq;

verus! {

/// The deep view of a `Result`, both sides taken to their mathematical
/// values.
pub open spec fn res_dv<T: DeepView, E: DeepView>(r: Result<T, E>) -> Result<T::V, E::V> {
    match r {
        Ok(t) => Ok(t.deep_view()),
        Err(e) => Err(e.deep_view()),
    }
}

/// Ghost mirror of `DeserError`.
#[verifier::ext_equal]
pub struct DeserErrorV {
    pub reason: Seq<char>,
    pub path: Seq<char>,
}

/// A structural error: what was wrong, and the dotted path of the table it
/// was found in (empty for the document root).
#[derive(Debug)]
pub struct DeserError {
    pub reason: String,
    pub path: String,
}

impl DeepView for DeserError {
    type V = DeserErrorV;

    open spec fn deep_view(&self) -> DeserErrorV {
        DeserErrorV { reason: self.reason@, path: self.path@ }
    }
}

pub open spec fn missing_field_v(field: Seq<char>, path: Seq<char>) -> DeserErrorV {
    DeserErrorV { reason: "missing field `"@ + field + "`"@, path }
}

pub open spec fn unknown_field_v(field: Seq<char>, expected: Seq<char>, path: Seq<char>) -> DeserErrorV {
    DeserErrorV { reason: "unknown field `"@ + field + "`, expected "@ + expected, path }
}

pub open spec fn unknown_variant_v(variant: Seq<char>, expected: Seq<char>, path: Seq<char>) -> DeserErrorV {
    DeserErrorV { reason: "unknown variant `"@ + variant + "`, expected "@ + expected, path }
}

pub open spec fn invalid_type_v(found: Seq<char>, want: Seq<char>, path: Seq<char>) -> DeserErrorV {
    DeserErrorV { reason: "invalid type: "@ + found + ", expected "@ + want, path }
}

pub fn missing_field(field: &str, path: &str) -> (r: DeserError)
    ensures
        r.deep_view() == missing_field_v(field@, path@),
{
    let mut reason = "missing field `".to_owned();
    reason.append(field);
    reason.append("`");
    DeserError { reason, path: path.to_owned() }
}

pub fn unknown_field(field: &str, expected: &str, path: &str) -> (r: DeserError)
    ensures
        r.deep_view() == unknown_field_v(field@, expected@, path@),
{
    let mut reason = "unknown field `".to_owned();
    reason.append(field);
    reason.append("`, expected ");
    reason.append(expected);
    DeserError { reason, path: path.to_owned() }
}

pub fn unknown_variant(variant: &str, expected: &str, path: &str) -> (r: DeserError)
    ensures
        r.deep_view() == unknown_variant_v(variant@, expected@, path@),
{
    let mut reason = "unknown variant `".to_owned();
    reason.append(variant);
    reason.append("`, expected ");
    reason.append(expected);
    DeserError { reason, path: path.to_owned() }
}

pub fn invalid_type(found: &str, want: &str, path: &str) -> (r: DeserError)
    ensures
        r.deep_view() == invalid_type_v(found@, want@, path@),
{
    let mut reason = "invalid type: ".to_owned();
    reason.append(found);
    reason.append(", expected ");
    reason.append(want);
    DeserError { reason, path: path.to_owned() }
}

/// The full message a structural error renders to, in the addressing scheme
/// the document uses: the reason, then the dotted path of the offending
/// table when it is not the root.
pub open spec fn spec_render(e: DeserErrorV) -> Seq<char> {
    if e.path.len() == 0 {
        "Failed to parse config:\n"@ + e.reason + "\n"@
    } else {
        "Failed to parse config:\n"@ + e.reason + "\n"@ + "in `"@ + e.path + "`\n"@
    }
}

/// Render a structural error as the configuration error the loader reports.
pub fn render(e: &DeserError) -> (r: Error)
    ensures
        r.deep_view() == (ErrorV::Config { message: spec_render(e.deep_view()) }),
{
    let mut message = "Failed to parse config:\n".to_owned();
    message.append(e.reason.as_str());
    message.append("\n");
    if !e.path.as_str().is_empty() {
        message.append("in `");
        message.append(e.path.as_str());
        message.append("`\n");
    }
    Error::Config { message }
}

/// The value of the first entry of `t` (from index `i` on) whose key is `k`.
pub open spec fn alist_get_from(t: Seq<(Seq<char>, RawVal)>, k: Seq<char>, i: int) -> Option<RawVal> {
    find_from(t, k, i)
}

/// The value at key `k` of table `t`, if any.
pub open spec fn alist_get(t: Seq<(Seq<char>, RawVal)>, k: Seq<char>) -> Option<RawVal> {
    find_from(t, k, 0)
}

/// The first binding of `k` in an association list, from index `i` on.
pub open spec fn find_from<V>(t: Seq<(Seq<char>, V)>, k: Seq<char>, i: int) -> Option<V>
    decreases t.len() - i,
{
    if i < 0 || i >= t.len() {
        None
    } else if t[i].0 == k {
        Some(t[i].1)
    } else {
        find_from(t, k, i + 1)
    }
}

/// The first binding of `k` in an association list.
pub open spec fn find<V>(t: Seq<(Seq<char>, V)>, k: Seq<char>) -> Option<V> {
    find_from(t, k, 0)
}

/// Look a name up in an association list, front to back.
pub fn assoc_find<'a, V: DeepView>(t: &'a Vec<(String, V)>, k: &str) -> (r: Option<&'a V>)
    ensures
        match r {
            Some(v) => find(t.deep_view(), k@) == Some(v.deep_view()),
            None => find(t.deep_view(), k@) is None,
        },
{
    let ghost tv = t.deep_view();
    let mut i: usize = 0;
    while i < t.len()
        invariant
            0 <= i <= t.len(),
            tv == t.deep_view(),
            tv.len() == t.len(),
            forall|j: int| 0 <= j < t.len() ==> tv[j] == (t@[j].0@, t@[j].1.deep_view()),
            find_from(tv, k@, 0) == find_from(tv, k@, i as int),
        decreases t.len() - i,
    {
        if str_eq(t[i].0.as_str(), k) {
            return Some(&t[i].1);
        }
        i += 1;
    }
    None
}

/// The first key of `t` (from index `i` on) that `known` does not accept.
pub open spec fn first_unknown(
    t: Seq<(Seq<char>, RawVal)>,
    known: spec_fn(Seq<char>) -> bool,
    i: int,
) -> Option<Seq<char>>
    decreases t.len() - i,
{
    if i < 0 || i >= t.len() {
        None
    } else if !known(t[i].0) {
        Some(t[i].0)
    } else {
        first_unknown(t, known, i + 1)
    }
}

/// Look a key up in a table, front to back.
pub fn table_get<'a>(t: &'a Vec<(String, RawValue)>, k: &str) -> (r: Option<&'a RawValue>)
    ensures
        match r {
            Some(v) => alist_get(dv_entries(t@), k@) == Some(v.dv()),
            None => alist_get(dv_entries(t@), k@) is None,
        },
{
    proof {
        lemma_dv_entries(t@);
    }
    let ghost tv = dv_entries(t@);
    let mut i: usize = 0;
    while i < t.len()
        invariant
            0 <= i <= t.len(),
            tv == dv_entries(t@),
            tv.len() == t.len(),
            forall|j: int| 0 <= j < t.len() ==> tv[j] == (t@[j].0@, t@[j].1.dv()),
            alist_get_from(tv, k@, 0) == alist_get_from(tv, k@, i as int),
        decreases t.len() - i,
    {
        if str_eq(t[i].0.as_str(), k) {
            return Some(&t[i].1);
        }
        i += 1;
    }
    None
}

/// How the document describes a value of this shape, for error messages.
pub open spec fn type_desc(v: RawVal) -> Seq<char> {
    match v {
        RawVal::Str(_) => "string"@,
        RawVal::Int(_) => "integer"@,
        RawVal::Float(_) => "float"@,
        RawVal::Bool(_) => "boolean"@,
        RawVal::Datetime(_) => "datetime"@,
        RawVal::Array(_) => "array"@,
        RawVal::Table(_) => "table"@,
    }
}

pub fn type_desc_str(v: &RawValue) -> (r: &'static str)
    ensures
        r@ == type_desc(v.dv()),
{
    match v {
        RawValue::Str(_) => "string",
        RawValue::Int(_) => "integer",
        RawValue::Float(_) => "float",
        RawValue::Bool(_) => "boolean",
        RawValue::Datetime(_) => "datetime",
        RawValue::Array(_) => "array",
        RawValue::Table(_) => "table",
    }
}

pub open spec fn spec_expect_str(v: RawVal, path: Seq<char>) -> Result<Seq<char>, DeserErrorV> {
    match v {
        RawVal::Str(s) => Ok(s),
        _ => Err(invalid_type_v(type_desc(v), "a string"@, path)),
    }
}

/// Read a string scalar.
pub fn expect_str(v: &RawValue, path: &str) -> (r: Result<String, DeserError>)
    ensures
        res_dv(r) == spec_expect_str(v.dv(), path@),
{
    match v {
        RawValue::Str(s) => Ok(s.clone()),
        _ => Err(invalid_type(type_desc_str(v), "a string", path)),
    }
}

pub open spec fn spec_expect_bool(v: RawVal, path: Seq<char>) -> Result<bool, DeserErrorV> {
    match v {
        RawVal::Bool(b) => Ok(b),
        _ => Err(invalid_type_v(type_desc(v), "a boolean"@, path)),
    }
}

/// Read a boolean scalar.
pub fn expect_bool(v: &RawValue, path: &str) -> (r: Result<bool, DeserError>)
    ensures
        res_dv(r) == spec_expect_bool(v.dv(), path@),
{
    match v {
        RawValue::Bool(b) => Ok(*b),
        _ => Err(invalid_type(type_desc_str(v), "a boolean", path)),
    }
}

pub open spec fn spec_expect_float(v: RawVal, path: Seq<char>) -> Result<u64, DeserErrorV> {
    match v {
        RawVal::Float(b) => Ok(b),
        _ => Err(invalid_type_v(type_desc(v), "a float"@, path)),
    }
}

/// Read a floating-point scalar, as its IEEE-754 bit pattern.
pub fn expect_float(v: &RawValue, path: &str) -> (r: Result<u64, DeserError>)
    ensures
        res_dv(r) == spec_expect_float(v.dv(), path@),
{
    match v {
        RawValue::Float(b) => Ok(*b),
        _ => Err(invalid_type(type_desc_str(v), "a float", path)),
    }
}

pub open spec fn spec_expect_table(v: RawVal, path: Seq<char>) -> Result<Seq<(Seq<char>, RawVal)>, DeserErrorV> {
    match v {
        RawVal::Table(t) => Ok(t),
        _ => Err(invalid_type_v(type_desc(v), "a map"@, path)),
    }
}

/// Borrow the entries of a table value.
pub fn expect_table<'a>(v: &'a RawValue, path: &str) -> (r: Result<&'a Vec<(String, RawValue)>, DeserError>)
    ensures
        match r {
            Ok(t) => spec_expect_table(v.dv(), path@) == Ok::<_, DeserErrorV>(dv_entries(t@)),
            Err(e) => spec_expect_table(v.dv(), path@) == Err::<Seq<(Seq<char>, RawVal)>, _>(e.deep_view()),
        },
{
    match v {
        RawValue::Table(t) => Ok(t),
        _ => Err(invalid_type(type_desc_str(v), "a map", path)),
    }
}

/// Read an optional boolean field of an already-scanned table; absent means
/// false.
pub open spec fn spec_opt_bool(
    t: Seq<(Seq<char>, RawVal)>,
    field: Seq<char>,
    path: Seq<char>,
) -> Result<bool, DeserErrorV> {
    match alist_get(t, field) {
        None => Ok(false),
        Some(v) => spec_expect_bool(v, crate::text::spec_extend_path(path, field)),
    }
}

/// Read an optional boolean field, false when absent.
pub fn opt_bool(t: &Vec<(String, RawValue)>, field: &str, path: &str) -> (r: Result<
    bool,
    DeserError,
>)
    ensures
        res_dv(r) == spec_opt_bool(dv_entries(t@), field@, path@),
{
    match table_get(t, field) {
        None => Ok(false),
        Some(v) => {
            let p = crate::text::extend_path(path, field);
            expect_bool(v, p.as_str())
        },
    }
}

/// The sequences of characters held by a sequence of string nodes.
pub open spec fn strings_of(s: Seq<RawVal>) -> Seq<Seq<char>>
    decreases s,
{
    if s.len() == 0 {
        Seq::empty()
    } else {
        strings_of(s.drop_last()).push(str_content(s.last()))
    }
}

pub open spec fn str_content(x: RawVal) -> Seq<char> {
    match x {
        RawVal::Str(s) => s,
        _ => Seq::empty(),
    }
}

/// The first element (from index `i` on) that is not a string node.
pub open spec fn first_non_string(s: Seq<RawVal>, i: int) -> Option<RawVal>
    decreases s.len() - i,
{
    if i < 0 || i >= s.len() {
        None
    } else if !(s[i] is Str) {
        Some(s[i])
    } else {
        first_non_string(s, i + 1)
    }
}

pub open spec fn spec_expect_string_array(v: RawVal, path: Seq<char>) -> Result<Seq<Seq<char>>, DeserErrorV> {
    match v {
        RawVal::Array(s) => match first_non_string(s, 0) {
            Some(b) => Err(invalid_type_v(type_desc(b), "a string"@, path)),
            None => Ok(strings_of(s)),
        },
        _ => Err(invalid_type_v(type_desc(v), "an array"@, path)),
    }
}

/// Read an array of string scalars.
pub fn expect_string_array(v: &RawValue, path: &str) -> (r: Result<Vec<String>, DeserError>)
    ensures
        res_dv(r) == spec_expect_string_array(v.dv(), path@),
{
    let a = match v {
        RawValue::Array(a) => a,
        _ => {
            return Err(invalid_type(type_desc_str(v), "an array", path));
        },
    };
    proof {
        lemma_dv_elems(a@);
    }
    let ghost s = dv_elems(a@);
    let mut out: Vec<String> = Vec::new();
    let mut i: usize = 0;
    while i < a.len()
        invariant
            0 <= i <= a.len(),
            s == dv_elems(a@),
            s.len() == a.len(),
            forall|j: int| 0 <= j < a.len() ==> s[j] == a@[j].dv(),
            v.dv() == RawVal::Array(s),
            first_non_string(s, 0) == first_non_string(s, i as int),
            out.deep_view() == strings_of(s.subrange(0, i as int)),
        decreases a.len() - i,
    {
        let ghost out0 = out.deep_view();
        match &a[i] {
            RawValue::Str(x) => {
                out.push(x.clone());
                proof {
                    assert(out.deep_view() =~= out0.push(x@));
                    let post = s.subrange(0, i + 1 as int);
                    assert(post.drop_last() =~= s.subrange(0, i as int));
                    assert(post.last() == s[i as int]);
                    assert(out.deep_view() =~= strings_of(post));
                }
            },
            other => {
                return Err(invalid_type(type_desc_str(other), "a string", path));
            },
        }
        i += 1;
    }
    proof {
        assert(s.subrange(0, s.len() as int) =~= s);
    }
    Ok(out)
}

} // verus!
