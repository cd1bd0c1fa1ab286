//! The untyped key/value tree a configuration document parses into, and the
//! trusted boundary to the TOML parser that produces it.

use vstd::prelude::*;

use crate::de::res_dv;

verus! {

/// Ghost mirror of `RawValue`: the mathematical shape of an untyped
/// configuration document.
#[verifier::ext_equal]
pub enum RawVal {
    Str(Seq<char>),
    Int(int),
    /// IEEE-754 bit pattern of a floating-point scalar.
    Float(u64),
    Bool(bool),
    /// A date-time scalar, kept only as its textual form; no field of the
    /// configuration schema accepts one.
    Datetime(Seq<char>),
    Array(Seq<RawVal>),
    Table(Seq<(Seq<char>, RawVal)>),
}

/// One node of a parsed configuration document: a scalar, an array, or a
/// table of key/value pairs in the parsed table's key order.  Floating-point
/// scalars are carried as their IEEE-754 bit pattern so that the tree stays
/// free of float arithmetic.
#[derive(Debug)]
pub enum RawValue {
    Str(String),
    Int(i64),
    Float(u64),
    Bool(bool),
    Datetime(String),
    Array(Vec<RawValue>),
    Table(Vec<(String, RawValue)>),
}

impl RawValue {
    /// The mathematical value this node stands for.
    pub open spec fn dv(self) -> RawVal
        decreases self,
    {
        match self {
            RawValue::Str(s) => RawVal::Str(s@),
            RawValue::Int(i) => RawVal::Int(i as int),
            RawValue::Float(b) => RawVal::Float(b),
            RawValue::Bool(b) => RawVal::Bool(b),
            RawValue::Datetime(s) => RawVal::Datetime(s@),
            RawValue::Array(a) => RawVal::Array(dv_elems(a@)),
            RawValue::Table(t) => RawVal::Table(dv_entries(t@)),
        }
    }
}

/// The mathematical values of a sequence of nodes, element by element.
pub open spec fn dv_elems(s: Seq<RawValue>) -> Seq<RawVal>
    decreases s,
{
    if s.len() == 0 {
        Seq::empty()
    } else {
        dv_elems(s.drop_last()).push(s.last().dv())
    }
}

/// The mathematical values of a table's entries, key by key.
pub open spec fn dv_entries(s: Seq<(String, RawValue)>) -> Seq<(Seq<char>, RawVal)>
    decreases s,
{
    if s.len() == 0 {
        Seq::empty()
    } else {
        dv_entries(s.drop_last()).push((s.last().0@, s.last().1.dv()))
    }
}

impl DeepView for RawValue {
    type V = RawVal;

    open spec fn deep_view(&self) -> RawVal {
        self.dv()
    }
}

pub broadcast proof fn lemma_dv_elems(s: Seq<RawValue>)
    ensures
        #[trigger] dv_elems(s).len() == s.len(),
        forall|i: int| 0 <= i < s.len() ==> dv_elems(s)[i] == s[i].dv(),
    decreases s,
{
    if s.len() > 0 {
        lemma_dv_elems(s.drop_last());
    }
}

pub broadcast proof fn lemma_dv_entries(s: Seq<(String, RawValue)>)
    ensures
        #[trigger] dv_entries(s).len() == s.len(),
        forall|i: int| 0 <= i < s.len() ==> dv_entries(s)[i] == (s[i].0@, s[i].1.dv()),
    decreases s,
{
    if s.len() > 0 {
        lemma_dv_entries(s.drop_last());
    }
}

/// Whether every table of a tree binds each key at most once.  The TOML
/// parser guarantees this of everything it hands out (its tables keep one
/// entry per key), and the registry's lookup semantics rest on it.
pub open spec fn raw_wf(v: RawVal) -> bool
    decreases v,
{
    match v {
        RawVal::Array(s) => raw_wf_elems(s),
        RawVal::Table(t) => distinct_keys(t) && raw_wf_entries(t),
        _ => true,
    }
}

pub open spec fn raw_wf_elems(s: Seq<RawVal>) -> bool
    decreases s,
{
    if s.len() == 0 {
        true
    } else {
        raw_wf_elems(s.drop_last()) && raw_wf(s.last())
    }
}

pub open spec fn raw_wf_entries(t: Seq<(Seq<char>, RawVal)>) -> bool
    decreases t,
{
    if t.len() == 0 {
        true
    } else {
        raw_wf_entries(t.drop_last()) && raw_wf(t.last().1)
    }
}

/// Pairwise-distinct keys of one table.
pub open spec fn distinct_keys<V>(t: Seq<(Seq<char>, V)>) -> bool {
    forall|i: int, j: int| 0 <= i < j < t.len() ==> (#[trigger] t[i].0) != (#[trigger] t[j].0)
}

/// What parsing a text as TOML yields.  Parsing is a pure function of the
/// text alone — the parser takes no other input, and its tables order their
/// entries by key — so the result bears a name rather than a page of
/// grammar.
pub uninterp spec fn toml_doc_of(text: Seq<char>) -> Result<RawVal, Seq<char>>;

#[verifier::external_type_specification]
#[verifier::external_body]
pub struct ExTomlValue(toml::Value);

/// Relies on `toml::Value`: a parsed TOML value is exactly one of a string,
/// integer, float, boolean, datetime, array or table; this moves each into
/// the corresponding node of the crate's own tree, floats as their bits.
/// Called only while converting what `str::parse::<toml::Table>` returned.
#[verifier::external_body]
fn raw_from_toml(v: toml::Value) -> (r: RawValue) {
    match v {
        toml::Value::String(s) => RawValue::Str(s),
        toml::Value::Integer(i) => RawValue::Int(i),
        toml::Value::Float(f) => RawValue::Float(f.to_bits()),
        toml::Value::Boolean(b) => RawValue::Bool(b),
        toml::Value::Datetime(d) => RawValue::Datetime(d.to_string()),
        toml::Value::Array(a) => RawValue::Array(a.into_iter().map(raw_from_toml).collect()),
        toml::Value::Table(t) => {
            RawValue::Table(t.into_iter().map(|(k, x)| (k, raw_from_toml(x))).collect())
        },
    }
}

/// Relies on `str::parse::<toml::Table>`: parsing is deterministic — a pure
/// function of the text, here named `toml_doc_of` — a success is always a
/// table, and the parser's map binds each key once, at every nesting depth,
/// so the tree is well formed.
#[verifier::external_body]
fn parse_raw(text: &str) -> (r: Result<RawValue, String>)
    ensures
        res_dv(r) == toml_doc_of(text@),
        r matches Ok(v) ==> v.dv() is Table && raw_wf(v.dv()),
{
    match text.parse::<toml::Table>() {
        Ok(t) => Ok(raw_from_toml(toml::Value::Table(t))),
        Err(e) => Err(e.to_string()),
    }
}

/// Parse the text of a configuration document into the untyped key/value
/// tree.  The result is a function of the text alone (`toml_doc_of`); a
/// success is a well-formed table, and a syntax error returns the parser's
/// diagnostic.
pub fn parse_document(text: &str) -> (r: Result<RawValue, String>)
    ensures
        res_dv(r) == toml_doc_of(text@),
        r matches Ok(v) ==> v.dv() is Table && raw_wf(v.dv()),
{
    parse_raw(text)
}

} // verus!
