//! Variant declarations: one concrete strategy implementing a function — a
//! model, up to three prompt templates, a JSON-mode setting and a relative
//! sampling weight.

use vstd::prelude::*;

use crate::de::{
    alist_get, expect_float, expect_str, first_unknown, missing_field, missing_field_v, res_dv,
    spec_expect_float, spec_expect_str, table_get, unknown_field, unknown_field_v,
    unknown_variant, unknown_variant_v, DeserError, DeserErrorV,
};
use crate::raw::{dv_entries, lemma_dv_entries, RawVal, RawValue};
use crate::text::{extend_path, spec_extend_path, str_eq};

verus! {

/// How a variant of a JSON function asks the provider for structured
/// output.
#[derive(Debug, Clone, Copy, PartialEq, Eq, Structural)]
pub enum JsonMode {
    Off,
    On,
    Strict,
    ImplicitTool,
}

impl DeepView for JsonMode {
    type V = JsonMode;

    open spec fn deep_view(&self) -> JsonMode {
        *self
    }
}

/// Whether the bit pattern of an IEEE-754 double encodes a NaN.
pub open spec fn f64_bits_is_nan(b: u64) -> bool {
    b & 0x7ff0000000000000 == 0x7ff0000000000000 && b & 0x000fffffffffffff != 0
}

/// Whether the bit pattern of an IEEE-754 double encodes a value at least
/// zero: not a NaN, and either the sign bit is clear or the value is
/// negative zero.
pub open spec fn f64_bits_ge_zero(b: u64) -> bool {
    !f64_bits_is_nan(b) && (b < 0x8000000000000000 || b == 0x8000000000000000)
}

/// Decide whether a weight, given as the bits of an IEEE-754 double, is at
/// least zero.
pub fn weight_ge_zero(b: u64) -> (r: bool)
    ensures
        r == f64_bits_ge_zero(b),
{
    let nan = b & 0x7ff0000000000000 == 0x7ff0000000000000 && b & 0x000fffffffffffff != 0;
    !nan && (b < 0x8000000000000000 || b == 0x8000000000000000)
}

/// Ghost mirror of `ChatCompletionConfig`.
#[verifier::ext_equal]
pub struct ChatCompletionConfigV {
    pub weight_bits: u64,
    pub model: Seq<char>,
    pub system_template: Option<Seq<char>>,
    pub user_template: Option<Seq<char>>,
    pub assistant_template: Option<Seq<char>>,
    pub json_mode: JsonMode,
}

/// One chat-completion variant: its sampling weight (held as the bits of
/// the declared IEEE-754 double), the model it dispatches to, optional
/// prompt templates for the three message roles, and its JSON mode.
#[derive(Debug)]
pub struct ChatCompletionConfig {
    pub weight_bits: u64,
    pub model: String,
    pub system_template: Option<String>,
    pub user_template: Option<String>,
    pub assistant_template: Option<String>,
    pub json_mode: JsonMode,
}

impl DeepView for ChatCompletionConfig {
    type V = ChatCompletionConfigV;

    open spec fn deep_view(&self) -> ChatCompletionConfigV {
        ChatCompletionConfigV {
            weight_bits: self.weight_bits,
            model: self.model@,
            system_template: self.system_template.deep_view(),
            user_template: self.user_template.deep_view(),
            assistant_template: self.assistant_template.deep_view(),
            json_mode: self.json_mode,
        }
    }
}

/// Ghost mirror of `VariantConfig`.
#[verifier::ext_equal]
pub enum VariantConfigV {
    ChatCompletion(ChatCompletionConfigV),
}

/// A variant of a function; chat completion is the one shape there is.
#[derive(Debug)]
pub enum VariantConfig {
    ChatCompletion(ChatCompletionConfig),
}

impl DeepView for VariantConfig {
    type V = VariantConfigV;

    open spec fn deep_view(&self) -> VariantConfigV {
        match self {
            VariantConfig::ChatCompletion(c) => VariantConfigV::ChatCompletion(c.deep_view()),
        }
    }
}

impl VariantConfig {
    /// The declared sampling weight, as IEEE-754 bits.
    pub fn weight_bits(&self) -> (r: u64)
        ensures
            self.deep_view() matches VariantConfigV::ChatCompletion(c) && r == c.weight_bits,
    {
        match self {
            VariantConfig::ChatCompletion(c) => c.weight_bits,
        }
    }

    /// The system template path, if the variant declares one.
    pub fn system_template(&self) -> (r: &Option<String>)
        ensures
            self.deep_view() matches VariantConfigV::ChatCompletion(c) && r.deep_view()
                == c.system_template,
    {
        match self {
            VariantConfig::ChatCompletion(c) => &c.system_template,
        }
    }

    /// The user template path, if the variant declares one.
    pub fn user_template(&self) -> (r: &Option<String>)
        ensures
            self.deep_view() matches VariantConfigV::ChatCompletion(c) && r.deep_view()
                == c.user_template,
    {
        match self {
            VariantConfig::ChatCompletion(c) => &c.user_template,
        }
    }

    /// The assistant template path, if the variant declares one.
    pub fn assistant_template(&self) -> (r: &Option<String>)
        ensures
            self.deep_view() matches VariantConfigV::ChatCompletion(c) && r.deep_view()
                == c.assistant_template,
    {
        match self {
            VariantConfig::ChatCompletion(c) => &c.assistant_template,
        }
    }
}

pub open spec fn variant_key_known(k: Seq<char>) -> bool {
    ||| k == "type"@
    ||| k == "weight"@
    ||| k == "model"@
    ||| k == "system_template"@
    ||| k == "user_template"@
    ||| k == "assistant_template"@
    ||| k == "json_mode"@
}

pub open spec fn spec_parse_json_mode(s: Seq<char>, path: Seq<char>) -> Result<JsonMode, DeserErrorV> {
    if s == "off"@ {
        Ok(JsonMode::Off)
    } else if s == "on"@ {
        Ok(JsonMode::On)
    } else if s == "strict"@ {
        Ok(JsonMode::Strict)
    } else if s == "implicit_tool"@ {
        Ok(JsonMode::ImplicitTool)
    } else {
        Err(unknown_variant_v(s, "one of `off`, `on`, `strict`, `implicit_tool`"@, path))
    }
}

/// Read an optional string field of an already-scanned table.
pub open spec fn spec_opt_str(
    t: Seq<(Seq<char>, RawVal)>,
    field: Seq<char>,
    path: Seq<char>,
) -> Result<Option<Seq<char>>, DeserErrorV> {
    match alist_get(t, field) {
        None => Ok(None),
        Some(v) => match spec_expect_str(v, spec_extend_path(path, field)) {
            Err(e) => Err(e),
            Ok(s) => Ok(Some(s)),
        },
    }
}

/// A `[functions.<f>.variants.<v>]` table: its `chat_completion`
/// discriminant, required weight and model, optional templates, and JSON
/// mode (on unless said otherwise).
pub open spec fn spec_deser_variant(t: Seq<(Seq<char>, RawVal)>, path: Seq<char>) -> Result<VariantConfigV, DeserErrorV> {
    match alist_get(t, "type"@) {
        None => Err(missing_field_v("type"@, path)),
        Some(v) => match spec_expect_str(v, spec_extend_path(path, "type"@)) {
            Err(e) => Err(e),
            Ok(tag) => if tag != "chat_completion"@ {
                Err(unknown_variant_v(tag, "`chat_completion`"@, spec_extend_path(path, "type"@)))
            } else {
                match first_unknown(t, |k: Seq<char>| variant_key_known(k), 0) {
                    Some(k) => Err(unknown_field_v(
                        k,
                        "one of `type`, `weight`, `model`, `system_template`, `user_template`, `assistant_template`, `json_mode`"@,
                        path,
                    )),
                    None => match alist_get(t, "weight"@) {
                        None => Err(missing_field_v("weight"@, path)),
                        Some(w) => match spec_expect_float(w, spec_extend_path(path, "weight"@)) {
                            Err(e) => Err(e),
                            Ok(weight_bits) => match alist_get(t, "model"@) {
                                None => Err(missing_field_v("model"@, path)),
                                Some(m) => match spec_expect_str(m, spec_extend_path(path, "model"@)) {
                                    Err(e) => Err(e),
                                    Ok(model) => match spec_opt_str(t, "system_template"@, path) {
                                        Err(e) => Err(e),
                                        Ok(system_template) => match spec_opt_str(t, "user_template"@, path) {
                                            Err(e) => Err(e),
                                            Ok(user_template) => match spec_opt_str(t, "assistant_template"@, path) {
                                                Err(e) => Err(e),
                                                Ok(assistant_template) => match spec_opt_json_mode(t, path) {
                                                    Err(e) => Err(e),
                                                    Ok(json_mode) => Ok(VariantConfigV::ChatCompletion(
                                                        ChatCompletionConfigV {
                                                            weight_bits,
                                                            model,
                                                            system_template,
                                                            user_template,
                                                            assistant_template,
                                                            json_mode,
                                                        },
                                                    )),
                                                },
                                            },
                                        },
                                    },
                                },
                            },
                        },
                    },
                }
            },
        },
    }
}

/// The `json_mode` field, `On` when absent.
pub open spec fn spec_opt_json_mode(t: Seq<(Seq<char>, RawVal)>, path: Seq<char>) -> Result<JsonMode, DeserErrorV> {
    match alist_get(t, "json_mode"@) {
        None => Ok(JsonMode::On),
        Some(v) => match spec_expect_str(v, spec_extend_path(path, "json_mode"@)) {
            Err(e) => Err(e),
            Ok(s) => spec_parse_json_mode(s, spec_extend_path(path, "json_mode"@)),
        },
    }
}

/// Read an optional string field.
pub fn opt_str(t: &Vec<(String, RawValue)>, field: &str, path: &str) -> (r: Result<
    Option<String>,
    DeserError,
>)
    ensures
        res_dv(r) == spec_opt_str(dv_entries(t@), field@, path@),
{
    match table_get(t, field) {
        None => Ok(None),
        Some(v) => {
            let p = extend_path(path, field);
            match expect_str(v, p.as_str()) {
                Err(e) => Err(e),
                Ok(s) => Ok(Some(s)),
            }
        },
    }
}

fn parse_json_mode(s: &String, path: &str) -> (r: Result<JsonMode, DeserError>)
    ensures
        res_dv(r) == spec_parse_json_mode(s@, path@),
{
    if str_eq(s.as_str(), "off") {
        Ok(JsonMode::Off)
    } else if str_eq(s.as_str(), "on") {
        Ok(JsonMode::On)
    } else if str_eq(s.as_str(), "strict") {
        Ok(JsonMode::Strict)
    } else if str_eq(s.as_str(), "implicit_tool") {
        Ok(JsonMode::ImplicitTool)
    } else {
        Err(unknown_variant(s.as_str(), "one of `off`, `on`, `strict`, `implicit_tool`", path))
    }
}

fn scan_variant_keys(t: &Vec<(String, RawValue)>) -> (r: Option<String>)
    ensures
        match r {
            Some(k) => first_unknown(dv_entries(t@), |k2: Seq<char>| variant_key_known(k2), 0)
                == Some(k@),
            None => first_unknown(dv_entries(t@), |k2: Seq<char>| variant_key_known(k2), 0) is None,
        },
{
    proof {
        lemma_dv_entries(t@);
    }
    let ghost tv = dv_entries(t@);
    let ghost known = |k2: Seq<char>| variant_key_known(k2);
    let mut i: usize = 0;
    while i < t.len()
        invariant
            0 <= i <= t.len(),
            tv == dv_entries(t@),
            tv.len() == t.len(),
            forall|j: int| 0 <= j < t.len() ==> tv[j] == (t@[j].0@, t@[j].1.dv()),
            first_unknown(tv, known, 0) == first_unknown(tv, known, i as int),
            known == (|k2: Seq<char>| variant_key_known(k2)),
        decreases t.len() - i,
    {
        let k = &t[i].0;
        if !(str_eq(k.as_str(), "type") || str_eq(k.as_str(), "weight") || str_eq(
            k.as_str(),
            "model",
        ) || str_eq(k.as_str(), "system_template") || str_eq(k.as_str(), "user_template")
            || str_eq(k.as_str(), "assistant_template") || str_eq(k.as_str(), "json_mode")) {
            return Some(k.clone());
        }
        i += 1;
    }
    None
}

/// Read one variant table.
pub fn deser_variant(t: &Vec<(String, RawValue)>, path: &str) -> (r: Result<VariantConfig, DeserError>)
    ensures
        res_dv(r) == spec_deser_variant(dv_entries(t@), path@),
{
    let tag = match table_get(t, "type") {
        None => {
            return Err(missing_field("type", path));
        },
        Some(v) => {
            let p = extend_path(path, "type");
            match expect_str(v, p.as_str()) {
                Err(e) => {
                    return Err(e);
                },
                Ok(s) => s,
            }
        },
    };
    if !str_eq(tag.as_str(), "chat_completion") {
        let p = extend_path(path, "type");
        return Err(unknown_variant(tag.as_str(), "`chat_completion`", p.as_str()));
    }
    if let Some(k) = scan_variant_keys(t) {
        return Err(unknown_field(
            k.as_str(),
            "one of `type`, `weight`, `model`, `system_template`, `user_template`, `assistant_template`, `json_mode`",
            path,
        ));
    }
    let weight_bits = match table_get(t, "weight") {
        None => {
            return Err(missing_field("weight", path));
        },
        Some(v) => {
            let p = extend_path(path, "weight");
            match expect_float(v, p.as_str()) {
                Err(e) => {
                    return Err(e);
                },
                Ok(w) => w,
            }
        },
    };
    let model = match table_get(t, "model") {
        None => {
            return Err(missing_field("model", path));
        },
        Some(v) => {
            let p = extend_path(path, "model");
            match expect_str(v, p.as_str()) {
                Err(e) => {
                    return Err(e);
                },
                Ok(m) => m,
            }
        },
    };
    let system_template = match opt_str(t, "system_template", path) {
        Err(e) => {
            return Err(e);
        },
        Ok(o) => o,
    };
    let user_template = match opt_str(t, "user_template", path) {
        Err(e) => {
            return Err(e);
        },
        Ok(o) => o,
    };
    let assistant_template = match opt_str(t, "assistant_template", path) {
        Err(e) => {
            return Err(e);
        },
        Ok(o) => o,
    };
    let json_mode = match table_get(t, "json_mode") {
        None => JsonMode::On,
        Some(v) => {
            let p = extend_path(path, "json_mode");
            match expect_str(v, p.as_str()) {
                Err(e) => {
                    return Err(e);
                },
                Ok(s) => match parse_json_mode(&s, p.as_str()) {
                    Err(e) => {
                        return Err(e);
                    },
                    Ok(m) => m,
                },
            }
        },
    };
    Ok(VariantConfig::ChatCompletion(ChatCompletionConfig {
        weight_bits,
        model,
        system_template,
        user_template,
        assistant_template,
        json_mode,
    }))
}

} // verus!
