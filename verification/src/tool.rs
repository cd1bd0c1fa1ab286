//! Tool declarations and the tool-call policy: static tools an operator
//! declares, and the implicit tool the resolver synthesizes to force
//! structured output.

use vstd::prelude::*;

use crate::de::{
    alist_get, expect_str, first_unknown, missing_field, missing_field_v, opt_bool, res_dv,
    spec_expect_str, spec_opt_bool, table_get, unknown_field, unknown_field_v, unknown_variant,
    unknown_variant_v, invalid_type, invalid_type_v, type_desc, type_desc_str, DeserError,
    DeserErrorV,
};
use crate::error::Error;
use crate::raw::{dv_entries, lemma_dv_entries, RawVal, RawValue};
use crate::schema::{compile_schema, spec_compile_schema, JsonSchema, JsonSchemaV, SchemaOutcomeV, SchemaSource};
use crate::text::{extend_path, spec_extend_path, str_eq};

verus! {

/// The reserved name of the tool the resolver synthesizes for structured
/// output; no operator-declared tool may shadow it.
pub const IMPLICIT_TOOL_NAME: &'static str = "respond";

/// Ghost mirror of `ToolChoice`.
#[verifier::ext_equal]
pub enum ToolChoiceV {
    NoTool,
    Auto,
    Specific(Seq<char>),
}

/// Whether a model call must invoke a tool: never, at the model's
/// discretion, or one specific named tool.
#[derive(Debug)]
pub enum ToolChoice {
    NoTool,
    Auto,
    Specific(String),
}

impl DeepView for ToolChoice {
    type V = ToolChoiceV;

    open spec fn deep_view(&self) -> ToolChoiceV {
        match self {
            ToolChoice::NoTool => ToolChoiceV::NoTool,
            ToolChoice::Auto => ToolChoiceV::Auto,
            ToolChoice::Specific(name) => ToolChoiceV::Specific(name@),
        }
    }
}

impl PartialEq for ToolChoice {
    fn eq(&self, other: &ToolChoice) -> (r: bool) {
        match (self, other) {
            (ToolChoice::NoTool, ToolChoice::NoTool) => true,
            (ToolChoice::Auto, ToolChoice::Auto) => true,
            (ToolChoice::Specific(a), ToolChoice::Specific(b)) => *a == *b,
            _ => false,
        }
    }
}

impl vstd::std_specs::cmp::PartialEqSpecImpl for ToolChoice {
    open spec fn obeys_eq_spec() -> bool {
        true
    }

    open spec fn eq_spec(&self, other: &ToolChoice) -> bool {
        self.deep_view() == other.deep_view()
    }
}

/// Ghost mirror of `StaticToolConfig`.
#[verifier::ext_equal]
pub struct StaticToolConfigV {
    pub name: Seq<char>,
    pub description: Seq<char>,
    pub parameters: JsonSchemaV,
    pub strict: bool,
}

/// A tool an operator declared: its name, a description for the model, a
/// compiled parameter schema, and a strictness flag.
#[derive(Debug)]
pub struct StaticToolConfig {
    pub name: String,
    pub description: String,
    pub parameters: JsonSchema,
    pub strict: bool,
}

impl DeepView for StaticToolConfig {
    type V = StaticToolConfigV;

    open spec fn deep_view(&self) -> StaticToolConfigV {
        StaticToolConfigV {
            name: self.name@,
            description: self.description@,
            parameters: self.parameters.deep_view(),
            strict: self.strict,
        }
    }
}

/// Ghost mirror of `ImplicitToolConfig`.
#[verifier::ext_equal]
pub struct ImplicitToolConfigV {
    pub parameters: JsonSchemaV,
}

/// The tool the resolver synthesizes for a JSON function: only a compiled
/// parameter schema, under the reserved name.
#[derive(Debug)]
pub struct ImplicitToolConfig {
    pub parameters: JsonSchema,
}

impl DeepView for ImplicitToolConfig {
    type V = ImplicitToolConfigV;

    open spec fn deep_view(&self) -> ImplicitToolConfigV {
        ImplicitToolConfigV { parameters: self.parameters.deep_view() }
    }
}

/// Ghost mirror of `ToolConfig`.
#[verifier::ext_equal]
pub enum ToolConfigV {
    Static(StaticToolConfigV),
    Implicit(ImplicitToolConfigV),
}

/// A tool as the runtime sees it: declared by the operator, or synthesized
/// by the resolver.
#[derive(Debug)]
pub enum ToolConfig {
    Static(StaticToolConfig),
    Implicit(ImplicitToolConfig),
}

impl DeepView for ToolConfig {
    type V = ToolConfigV;

    open spec fn deep_view(&self) -> ToolConfigV {
        match self {
            ToolConfig::Static(c) => ToolConfigV::Static(c.deep_view()),
            ToolConfig::Implicit(c) => ToolConfigV::Implicit(c.deep_view()),
        }
    }
}

/// Ghost mirror of `ToolCallConfig`.
#[verifier::ext_equal]
pub struct ToolCallConfigV {
    pub tools_available: Seq<ToolConfigV>,
    pub tool_choice: ToolChoiceV,
    pub parallel_tool_calls: bool,
}

/// The tool-calling posture of one request: the tools on offer, the choice
/// policy, and whether calls may run in parallel.
#[derive(Debug)]
pub struct ToolCallConfig {
    pub tools_available: Vec<ToolConfig>,
    pub tool_choice: ToolChoice,
    pub parallel_tool_calls: bool,
}

impl DeepView for ToolCallConfig {
    type V = ToolCallConfigV;

    open spec fn deep_view(&self) -> ToolCallConfigV {
        ToolCallConfigV {
            tools_available: self.tools_available.deep_view(),
            tool_choice: self.tool_choice.deep_view(),
            parallel_tool_calls: self.parallel_tool_calls,
        }
    }
}

/// A tool-choice value: the strings `none` and `auto`, or a map with the
/// single key `specific` naming the tool.
pub open spec fn spec_deser_tool_choice(v: RawVal, path: Seq<char>) -> Result<ToolChoiceV, DeserErrorV> {
    match v {
        RawVal::Str(s) => if s == "none"@ {
            Ok(ToolChoiceV::NoTool)
        } else if s == "auto"@ {
            Ok(ToolChoiceV::Auto)
        } else {
            Err(unknown_variant_v(s, "one of `none`, `auto`, `specific`"@, path))
        },
        RawVal::Table(t) => if t.len() != 1 {
            Err(invalid_type_v("table"@, "a map with a single key"@, path))
        } else if t[0].0 == "specific"@ {
            match spec_expect_str(t[0].1, spec_extend_path(path, "specific"@)) {
                Err(e) => Err(e),
                Ok(name) => Ok(ToolChoiceV::Specific(name)),
            }
        } else {
            Err(unknown_variant_v(t[0].0, "one of `none`, `auto`, `specific`"@, path))
        },
        _ => Err(invalid_type_v(type_desc(v), "a string or a map"@, path)),
    }
}

/// Read a tool-choice value.
pub fn deser_tool_choice(v: &RawValue, path: &str) -> (r: Result<ToolChoice, DeserError>)
    ensures
        res_dv(r) == spec_deser_tool_choice(v.dv(), path@),
{
    match v {
        RawValue::Str(s) => {
            if str_eq(s.as_str(), "none") {
                Ok(ToolChoice::NoTool)
            } else if str_eq(s.as_str(), "auto") {
                Ok(ToolChoice::Auto)
            } else {
                Err(unknown_variant(s.as_str(), "one of `none`, `auto`, `specific`", path))
            }
        },
        RawValue::Table(t) => {
            proof {
                lemma_dv_entries(t@);
            }
            if t.len() != 1 {
                Err(invalid_type("table", "a map with a single key", path))
            } else if str_eq(t[0].0.as_str(), "specific") {
                let p = extend_path(path, "specific");
                match expect_str(&t[0].1, p.as_str()) {
                    Err(e) => Err(e),
                    Ok(name) => Ok(ToolChoice::Specific(name)),
                }
            } else {
                Err(unknown_variant(t[0].0.as_str(), "one of `none`, `auto`, `specific`", path))
            }
        },
        _ => Err(invalid_type(type_desc_str(v), "a string or a map", path)),
    }
}

/// Ghost mirror of `UninitializedToolConfig`.
#[verifier::ext_equal]
pub struct UninitializedToolConfigV {
    pub description: Seq<char>,
    pub parameters: Seq<char>,
    pub strict: bool,
}

/// A tool as declared in the document, before its parameter schema is
/// compiled: the schema is still a path.
#[derive(Debug)]
pub struct UninitializedToolConfig {
    pub description: String,
    pub parameters: String,
    pub strict: bool,
}

impl DeepView for UninitializedToolConfig {
    type V = UninitializedToolConfigV;

    open spec fn deep_view(&self) -> UninitializedToolConfigV {
        UninitializedToolConfigV {
            description: self.description@,
            parameters: self.parameters@,
            strict: self.strict,
        }
    }
}

pub open spec fn tool_key_known(k: Seq<char>) -> bool {
    k == "description"@ || k == "parameters"@ || k == "strict"@
}

/// A `[tools.<name>]` table: a description, a parameter schema path, and an
/// optional strictness flag.
pub open spec fn spec_deser_tool(t: Seq<(Seq<char>, RawVal)>, path: Seq<char>) -> Result<UninitializedToolConfigV, DeserErrorV> {
    match first_unknown(t, |k: Seq<char>| tool_key_known(k), 0) {
        Some(k) => Err(unknown_field_v(k, "one of `description`, `parameters`, `strict`"@, path)),
        None => match alist_get(t, "description"@) {
            None => Err(missing_field_v("description"@, path)),
            Some(v0) => match spec_expect_str(v0, spec_extend_path(path, "description"@)) {
                Err(e) => Err(e),
                Ok(description) => match alist_get(t, "parameters"@) {
                    None => Err(missing_field_v("parameters"@, path)),
                    Some(v1) => match spec_expect_str(v1, spec_extend_path(path, "parameters"@)) {
                        Err(e) => Err(e),
                        Ok(parameters) => match spec_opt_bool(t, "strict"@, path) {
                            Err(e) => Err(e),
                            Ok(strict) => Ok(UninitializedToolConfigV {
                                description,
                                parameters,
                                strict,
                            }),
                        },
                    },
                },
            },
        },
    }
}

fn scan_tool_keys(t: &Vec<(String, RawValue)>) -> (r: Option<String>)
    ensures
        match r {
            Some(k) => first_unknown(dv_entries(t@), |k2: Seq<char>| tool_key_known(k2), 0) == Some(
                k@,
            ),
            None => first_unknown(dv_entries(t@), |k2: Seq<char>| tool_key_known(k2), 0) is None,
        },
{
    proof {
        lemma_dv_entries(t@);
    }
    let ghost tv = dv_entries(t@);
    let ghost known = |k2: Seq<char>| tool_key_known(k2);
    let mut i: usize = 0;
    while i < t.len()
        invariant
            0 <= i <= t.len(),
            tv == dv_entries(t@),
            tv.len() == t.len(),
            forall|j: int| 0 <= j < t.len() ==> tv[j] == (t@[j].0@, t@[j].1.dv()),
            first_unknown(tv, known, 0) == first_unknown(tv, known, i as int),
            known == (|k2: Seq<char>| tool_key_known(k2)),
        decreases t.len() - i,
    {
        let k = &t[i].0;
        if !(str_eq(k.as_str(), "description") || str_eq(k.as_str(), "parameters") || str_eq(
            k.as_str(),
            "strict",
        )) {
            return Some(k.clone());
        }
        i += 1;
    }
    None
}

/// Read one `[tools.<name>]` table.
pub fn deser_tool(t: &Vec<(String, RawValue)>, path: &str) -> (r: Result<
    UninitializedToolConfig,
    DeserError,
>)
    ensures
        res_dv(r) == spec_deser_tool(dv_entries(t@), path@),
{
    if let Some(k) = scan_tool_keys(t) {
        return Err(unknown_field(k.as_str(), "one of `description`, `parameters`, `strict`", path));
    }
    let description = match table_get(t, "description") {
        None => {
            return Err(missing_field("description", path));
        },
        Some(v) => {
            let p = extend_path(path, "description");
            match expect_str(v, p.as_str()) {
                Err(e) => {
                    return Err(e);
                },
                Ok(s) => s,
            }
        },
    };
    let parameters = match table_get(t, "parameters") {
        None => {
            return Err(missing_field("parameters", path));
        },
        Some(v) => {
            let p = extend_path(path, "parameters");
            match expect_str(v, p.as_str()) {
                Err(e) => {
                    return Err(e);
                },
                Ok(s) => s,
            }
        },
    };
    let strict = match opt_bool(t, "strict", path) {
        Err(e) => {
            return Err(e);
        },
        Ok(b) => b,
    };
    Ok(UninitializedToolConfig { description, parameters, strict })
}

/// What resolving a declared tool yields: its parameter schema compiled
/// against the base directory, under the tool's declared name.
pub open spec fn spec_load_tool(
    u: UninitializedToolConfigV,
    src: Seq<(Seq<char>, SchemaOutcomeV)>,
    base: Seq<char>,
    name: Seq<char>,
) -> Result<StaticToolConfigV, crate::error::ErrorV> {
    match spec_compile_schema(src, base, u.parameters) {
        Err(e) => Err(e),
        Ok(parameters) => Ok(StaticToolConfigV {
            name,
            description: u.description,
            parameters,
            strict: u.strict,
        }),
    }
}

impl UninitializedToolConfig {
    /// Resolve this declaration: compile its parameter schema and attach
    /// the tool's name.
    pub fn load(self, base_path: &str, name: String, schemas: &SchemaSource) -> (r: Result<
        StaticToolConfig,
        Error,
    >)
        ensures
            res_dv(r) == spec_load_tool(self.deep_view(), schemas.deep_view(), base_path@, name@),
    {
        match compile_schema(schemas, base_path, self.parameters.as_str()) {
            Err(e) => Err(e),
            Ok(parameters) => Ok(StaticToolConfig {
                name,
                description: self.description,
                parameters,
                strict: self.strict,
            }),
        }
    }
}

} // verus!
