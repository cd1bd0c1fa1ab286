//! Function declarations and their resolved forms: a chat function exposing
//! tools, or a JSON function enforcing an output schema through an implicit
//! tool.

use vstd::prelude::*;

use crate::de::{
    alist_get, expect_string_array, expect_table, first_unknown, missing_field, missing_field_v,
    opt_bool, res_dv, spec_expect_str, spec_expect_string_array, spec_expect_table, spec_opt_bool,
    expect_str, table_get, unknown_field, unknown_field_v, unknown_variant, unknown_variant_v,
    DeserError, DeserErrorV,
};
use crate::error::{Error, ErrorV};
use crate::raw::{dv_entries, lemma_dv_entries, RawVal, RawValue};
use crate::schema::{
    compile_schema, spec_compile_schema, JsonSchema, JsonSchemaV, SchemaOutcomeV, SchemaSource,
};
use crate::text::{extend_path, spec_extend_path, str_eq};
use crate::tool::{
    deser_tool_choice, spec_deser_tool_choice, ImplicitToolConfig, ImplicitToolConfigV, ToolCallConfig,
    ToolCallConfigV, ToolChoice, ToolChoiceV, ToolConfig, ToolConfigV, IMPLICIT_TOOL_NAME,
};
use crate::variant::{
    deser_variant, opt_str, spec_deser_variant, spec_opt_str, VariantConfig, VariantConfigV,
};

verus! {

/// Ghost mirror of `UninitializedFunctionConfigChat`.
#[verifier::ext_equal]
pub struct UninitializedFunctionConfigChatV {
    pub variants: Seq<(Seq<char>, VariantConfigV)>,
    pub system_schema: Option<Seq<char>>,
    pub user_schema: Option<Seq<char>>,
    pub assistant_schema: Option<Seq<char>>,
    pub tools: Seq<Seq<char>>,
    pub tool_choice: ToolChoiceV,
    pub parallel_tool_calls: bool,
}

/// A chat function as declared: schema fields are still paths.
#[derive(Debug)]
pub struct UninitializedFunctionConfigChat {
    pub variants: Vec<(String, VariantConfig)>,
    pub system_schema: Option<String>,
    pub user_schema: Option<String>,
    pub assistant_schema: Option<String>,
    pub tools: Vec<String>,
    pub tool_choice: ToolChoice,
    pub parallel_tool_calls: bool,
}

impl DeepView for UninitializedFunctionConfigChat {
    type V = UninitializedFunctionConfigChatV;

    open spec fn deep_view(&self) -> UninitializedFunctionConfigChatV {
        UninitializedFunctionConfigChatV {
            variants: self.variants.deep_view(),
            system_schema: self.system_schema.deep_view(),
            user_schema: self.user_schema.deep_view(),
            assistant_schema: self.assistant_schema.deep_view(),
            tools: self.tools.deep_view(),
            tool_choice: self.tool_choice.deep_view(),
            parallel_tool_calls: self.parallel_tool_calls,
        }
    }
}

/// Ghost mirror of `UninitializedFunctionConfigJson`.
#[verifier::ext_equal]
pub struct UninitializedFunctionConfigJsonV {
    pub variants: Seq<(Seq<char>, VariantConfigV)>,
    pub system_schema: Option<Seq<char>>,
    pub user_schema: Option<Seq<char>>,
    pub assistant_schema: Option<Seq<char>>,
    pub output_schema: Seq<char>,
}

/// A JSON function as declared: schema fields are still paths, the output
/// schema among them, and that one is mandatory.
#[derive(Debug)]
pub struct UninitializedFunctionConfigJson {
    pub variants: Vec<(String, VariantConfig)>,
    pub system_schema: Option<String>,
    pub user_schema: Option<String>,
    pub assistant_schema: Option<String>,
    pub output_schema: String,
}

impl DeepView for UninitializedFunctionConfigJson {
    type V = UninitializedFunctionConfigJsonV;

    open spec fn deep_view(&self) -> UninitializedFunctionConfigJsonV {
        UninitializedFunctionConfigJsonV {
            variants: self.variants.deep_view(),
            system_schema: self.system_schema.deep_view(),
            user_schema: self.user_schema.deep_view(),
            assistant_schema: self.assistant_schema.deep_view(),
            output_schema: self.output_schema@,
        }
    }
}

/// Ghost mirror of `UninitializedFunctionConfig`.
#[verifier::ext_equal]
pub enum UninitializedFunctionConfigV {
    Chat(UninitializedFunctionConfigChatV),
    Json(UninitializedFunctionConfigJsonV),
}

/// A function as declared in the document, before any schema is compiled.
#[derive(Debug)]
pub enum UninitializedFunctionConfig {
    Chat(UninitializedFunctionConfigChat),
    Json(UninitializedFunctionConfigJson),
}

impl DeepView for UninitializedFunctionConfig {
    type V = UninitializedFunctionConfigV;

    open spec fn deep_view(&self) -> UninitializedFunctionConfigV {
        match self {
            UninitializedFunctionConfig::Chat(c) => UninitializedFunctionConfigV::Chat(
                c.deep_view(),
            ),
            UninitializedFunctionConfig::Json(c) => UninitializedFunctionConfigV::Json(
                c.deep_view(),
            ),
        }
    }
}

/// Ghost mirror of `FunctionConfigChat`.
#[verifier::ext_equal]
pub struct FunctionConfigChatV {
    pub variants: Seq<(Seq<char>, VariantConfigV)>,
    pub system_schema: Option<JsonSchemaV>,
    pub user_schema: Option<JsonSchemaV>,
    pub assistant_schema: Option<JsonSchemaV>,
    pub tools: Seq<Seq<char>>,
    pub tool_choice: ToolChoiceV,
    pub parallel_tool_calls: bool,
}

/// A resolved chat function: compiled message schemas, the tools it may
/// call, and its tool-choice policy.
#[derive(Debug)]
pub struct FunctionConfigChat {
    pub variants: Vec<(String, VariantConfig)>,
    pub system_schema: Option<JsonSchema>,
    pub user_schema: Option<JsonSchema>,
    pub assistant_schema: Option<JsonSchema>,
    pub tools: Vec<String>,
    pub tool_choice: ToolChoice,
    pub parallel_tool_calls: bool,
}

impl DeepView for FunctionConfigChat {
    type V = FunctionConfigChatV;

    open spec fn deep_view(&self) -> FunctionConfigChatV {
        FunctionConfigChatV {
            variants: self.variants.deep_view(),
            system_schema: self.system_schema.deep_view(),
            user_schema: self.user_schema.deep_view(),
            assistant_schema: self.assistant_schema.deep_view(),
            tools: self.tools.deep_view(),
            tool_choice: self.tool_choice.deep_view(),
            parallel_tool_calls: self.parallel_tool_calls,
        }
    }
}

/// Ghost mirror of `FunctionConfigJson`.
#[verifier::ext_equal]
pub struct FunctionConfigJsonV {
    pub variants: Seq<(Seq<char>, VariantConfigV)>,
    pub system_schema: Option<JsonSchemaV>,
    pub user_schema: Option<JsonSchemaV>,
    pub assistant_schema: Option<JsonSchemaV>,
    pub output_schema: JsonSchemaV,
    pub implicit_tool_call_config: ToolCallConfigV,
}

/// A resolved JSON function: compiled message schemas, the compiled output
/// schema, and the synthesized tool-call configuration that forces
/// structured output when a variant's JSON mode asks for it.
#[derive(Debug)]
pub struct FunctionConfigJson {
    pub variants: Vec<(String, VariantConfig)>,
    pub system_schema: Option<JsonSchema>,
    pub user_schema: Option<JsonSchema>,
    pub assistant_schema: Option<JsonSchema>,
    pub output_schema: JsonSchema,
    pub implicit_tool_call_config: ToolCallConfig,
}

impl DeepView for FunctionConfigJson {
    type V = FunctionConfigJsonV;

    open spec fn deep_view(&self) -> FunctionConfigJsonV {
        FunctionConfigJsonV {
            variants: self.variants.deep_view(),
            system_schema: self.system_schema.deep_view(),
            user_schema: self.user_schema.deep_view(),
            assistant_schema: self.assistant_schema.deep_view(),
            output_schema: self.output_schema.deep_view(),
            implicit_tool_call_config: self.implicit_tool_call_config.deep_view(),
        }
    }
}

/// Ghost mirror of `FunctionConfig`.
#[verifier::ext_equal]
pub enum FunctionConfigV {
    Chat(FunctionConfigChatV),
    Json(FunctionConfigJsonV),
}

/// A resolved function, polymorphic over its kind.
#[derive(Debug)]
pub enum FunctionConfig {
    Chat(FunctionConfigChat),
    Json(FunctionConfigJson),
}

impl DeepView for FunctionConfig {
    type V = FunctionConfigV;

    open spec fn deep_view(&self) -> FunctionConfigV {
        match self {
            FunctionConfig::Chat(c) => FunctionConfigV::Chat(c.deep_view()),
            FunctionConfig::Json(c) => FunctionConfigV::Json(c.deep_view()),
        }
    }
}

/// The variants of a function's view, whichever its kind.
pub open spec fn spec_variants_of(f: FunctionConfigV) -> Seq<(Seq<char>, VariantConfigV)> {
    match f {
        FunctionConfigV::Chat(c) => c.variants,
        FunctionConfigV::Json(c) => c.variants,
    }
}

impl FunctionConfig {
    /// The variants implementing this function.
    pub fn variants(&self) -> (r: &Vec<(String, VariantConfig)>)
        ensures
            r.deep_view() == spec_variants_of(self.deep_view()),
    {
        match self {
            FunctionConfig::Chat(c) => &c.variants,
            FunctionConfig::Json(c) => &c.variants,
        }
    }
}

/// The variants map, entry by entry in document order; each value must be a
/// table holding one variant.
pub open spec fn spec_deser_variants_from(
    t: Seq<(Seq<char>, RawVal)>,
    path: Seq<char>,
    i: int,
) -> Result<Seq<(Seq<char>, VariantConfigV)>, DeserErrorV>
    decreases t.len() - i,
{
    if i < 0 || i >= t.len() {
        Ok(Seq::empty())
    } else {
        let entry_path = spec_extend_path(path, t[i].0);
        match spec_expect_table(t[i].1, entry_path) {
            Err(e) => Err(e),
            Ok(sub) => match spec_deser_variant(sub, entry_path) {
                Err(e) => Err(e),
                Ok(v) => match spec_deser_variants_from(t, path, i + 1) {
                    Err(e) => Err(e),
                    Ok(rest) => Ok(seq![(t[i].0, v)] + rest),
                },
            },
        }
    }
}

/// Read a variants map: every value must be a variant table.
fn deser_variants(t: &Vec<(String, RawValue)>, path: &str) -> (r: Result<
    Vec<(String, VariantConfig)>,
    DeserError,
>)
    ensures
        res_dv(r) == spec_deser_variants_from(dv_entries(t@), path@, 0),
{
    proof {
        lemma_dv_entries(t@);
    }
    let ghost tv = dv_entries(t@);
    let ghost full = spec_deser_variants_from(tv, path@, 0);
    let mut out: Vec<(String, VariantConfig)> = Vec::new();
    let mut i: usize = 0;
    while i < t.len()
        invariant
            0 <= i <= t.len(),
            tv == dv_entries(t@),
            tv.len() == t.len(),
            forall|j: int| 0 <= j < t.len() ==> tv[j] == (t@[j].0@, t@[j].1.dv()),
            full == spec_deser_variants_from(tv, path@, 0),
            out.len() == i,
            match spec_deser_variants_from(tv, path@, i as int) {
                Err(e) => full == Err::<Seq<(Seq<char>, VariantConfigV)>, DeserErrorV>(e),
                Ok(rest) => full == Ok::<Seq<(Seq<char>, VariantConfigV)>, DeserErrorV>(
                    out.deep_view() + rest,
                ),
            },
        decreases t.len() - i,
    {
        let name = &t[i].0;
        let entry_path = extend_path(path, name.as_str());
        let sub = match expect_table(&t[i].1, entry_path.as_str()) {
            Err(e) => {
                return Err(e);
            },
            Ok(sub) => sub,
        };
        let ghost out0 = out.deep_view();
        match deser_variant(sub, entry_path.as_str()) {
            Err(e) => {
                return Err(e);
            },
            Ok(v) => {
                let ghost vv = v.deep_view();
                let owned_name = name.clone();
                out.push((owned_name, v));
                proof {
                    assert(out.deep_view() =~= out0.push((tv[i as int].0, vv)));
                    match spec_deser_variants_from(tv, path@, i + 1 as int) {
                        Err(e) => {},
                        Ok(rest) => {
                            assert(out0 + (seq![(tv[i as int].0, vv)] + rest) =~= out.deep_view()
                                + rest);
                        },
                    }
                }
            },
        }
        i += 1;
    }
    proof {
        assert(out.deep_view() + Seq::<(Seq<char>, VariantConfigV)>::empty() =~= out.deep_view());
    }
    Ok(out)
}

pub open spec fn chat_function_key_known(k: Seq<char>) -> bool {
    ||| k == "type"@
    ||| k == "variants"@
    ||| k == "system_schema"@
    ||| k == "user_schema"@
    ||| k == "assistant_schema"@
    ||| k == "tools"@
    ||| k == "tool_choice"@
    ||| k == "parallel_tool_calls"@
}

pub open spec fn json_function_key_known(k: Seq<char>) -> bool {
    ||| k == "type"@
    ||| k == "variants"@
    ||| k == "system_schema"@
    ||| k == "user_schema"@
    ||| k == "assistant_schema"@
    ||| k == "output_schema"@
}

/// The required variants map of a function table.
pub open spec fn spec_req_variants(t: Seq<(Seq<char>, RawVal)>, path: Seq<char>) -> Result<
    Seq<(Seq<char>, VariantConfigV)>,
    DeserErrorV,
> {
    match alist_get(t, "variants"@) {
        None => Err(missing_field_v("variants"@, path)),
        Some(v) => {
            let vpath = spec_extend_path(path, "variants"@);
            match spec_expect_table(v, vpath) {
                Err(e) => Err(e),
                Ok(sub) => spec_deser_variants_from(sub, vpath, 0),
            }
        },
    }
}

/// The optional tools list of a chat function, empty when absent.
pub open spec fn spec_opt_tools(t: Seq<(Seq<char>, RawVal)>, path: Seq<char>) -> Result<
    Seq<Seq<char>>,
    DeserErrorV,
> {
    match alist_get(t, "tools"@) {
        None => Ok(Seq::empty()),
        Some(v) => spec_expect_string_array(v, spec_extend_path(path, "tools"@)),
    }
}

/// The optional tool choice of a chat function, `auto` when absent.
pub open spec fn spec_opt_tool_choice(t: Seq<(Seq<char>, RawVal)>, path: Seq<char>) -> Result<
    ToolChoiceV,
    DeserErrorV,
> {
    match alist_get(t, "tool_choice"@) {
        None => Ok(ToolChoiceV::Auto),
        Some(v) => spec_deser_tool_choice(v, spec_extend_path(path, "tool_choice"@)),
    }
}

/// A chat function table, after its `type` discriminant was read.
pub open spec fn spec_deser_function_chat(t: Seq<(Seq<char>, RawVal)>, path: Seq<char>) -> Result<
    UninitializedFunctionConfigChatV,
    DeserErrorV,
> {
    match first_unknown(t, |k: Seq<char>| chat_function_key_known(k), 0) {
        Some(k) => Err(unknown_field_v(
            k,
            "one of `type`, `variants`, `system_schema`, `user_schema`, `assistant_schema`, `tools`, `tool_choice`, `parallel_tool_calls`"@,
            path,
        )),
        None => match spec_req_variants(t, path) {
            Err(e) => Err(e),
            Ok(variants) => match spec_opt_str(t, "system_schema"@, path) {
                Err(e) => Err(e),
                Ok(system_schema) => match spec_opt_str(t, "user_schema"@, path) {
                    Err(e) => Err(e),
                    Ok(user_schema) => match spec_opt_str(t, "assistant_schema"@, path) {
                        Err(e) => Err(e),
                        Ok(assistant_schema) => match spec_opt_tools(t, path) {
                            Err(e) => Err(e),
                            Ok(tools) => match spec_opt_tool_choice(t, path) {
                                Err(e) => Err(e),
                                Ok(tool_choice) => match spec_opt_bool(t, "parallel_tool_calls"@, path) {
                                    Err(e) => Err(e),
                                    Ok(parallel_tool_calls) => Ok(UninitializedFunctionConfigChatV {
                                        variants,
                                        system_schema,
                                        user_schema,
                                        assistant_schema,
                                        tools,
                                        tool_choice,
                                        parallel_tool_calls,
                                    }),
                                },
                            },
                        },
                    },
                },
            },
        },
    }
}

/// A JSON function table, after its `type` discriminant was read.
pub open spec fn spec_deser_function_json(t: Seq<(Seq<char>, RawVal)>, path: Seq<char>) -> Result<
    UninitializedFunctionConfigJsonV,
    DeserErrorV,
> {
    match first_unknown(t, |k: Seq<char>| json_function_key_known(k), 0) {
        Some(k) => Err(unknown_field_v(
            k,
            "one of `type`, `variants`, `system_schema`, `user_schema`, `assistant_schema`, `output_schema`"@,
            path,
        )),
        None => match spec_req_variants(t, path) {
            Err(e) => Err(e),
            Ok(variants) => match spec_opt_str(t, "system_schema"@, path) {
                Err(e) => Err(e),
                Ok(system_schema) => match spec_opt_str(t, "user_schema"@, path) {
                    Err(e) => Err(e),
                    Ok(user_schema) => match spec_opt_str(t, "assistant_schema"@, path) {
                        Err(e) => Err(e),
                        Ok(assistant_schema) => match alist_get(t, "output_schema"@) {
                            None => Err(missing_field_v("output_schema"@, path)),
                            Some(v) => match spec_expect_str(v, spec_extend_path(path, "output_schema"@)) {
                                Err(e) => Err(e),
                                Ok(output_schema) => Ok(UninitializedFunctionConfigJsonV {
                                    variants,
                                    system_schema,
                                    user_schema,
                                    assistant_schema,
                                    output_schema,
                                }),
                            },
                        },
                    },
                },
            },
        },
    }
}

/// A `[functions.<name>]` table: its `type` discriminant, then the fields
/// of that kind.
pub open spec fn spec_deser_function(t: Seq<(Seq<char>, RawVal)>, path: Seq<char>) -> Result<
    UninitializedFunctionConfigV,
    DeserErrorV,
> {
    match alist_get(t, "type"@) {
        None => Err(missing_field_v("type"@, path)),
        Some(v) => match spec_expect_str(v, spec_extend_path(path, "type"@)) {
            Err(e) => Err(e),
            Ok(tag) => if tag == "chat"@ {
                match spec_deser_function_chat(t, path) {
                    Err(e) => Err(e),
                    Ok(c) => Ok(UninitializedFunctionConfigV::Chat(c)),
                }
            } else if tag == "json"@ {
                match spec_deser_function_json(t, path) {
                    Err(e) => Err(e),
                    Ok(c) => Ok(UninitializedFunctionConfigV::Json(c)),
                }
            } else {
                Err(unknown_variant_v(tag, "`chat` or `json`"@, spec_extend_path(path, "type"@)))
            },
        },
    }
}

fn scan_chat_function_keys(t: &Vec<(String, RawValue)>) -> (r: Option<String>)
    ensures
        match r {
            Some(k) => first_unknown(dv_entries(t@), |k2: Seq<char>| chat_function_key_known(k2), 0)
                == Some(k@),
            None => first_unknown(
                dv_entries(t@),
                |k2: Seq<char>| chat_function_key_known(k2),
                0,
            ) is None,
        },
{
    proof {
        lemma_dv_entries(t@);
    }
    let ghost tv = dv_entries(t@);
    let ghost known = |k2: Seq<char>| chat_function_key_known(k2);
    let mut i: usize = 0;
    while i < t.len()
        invariant
            0 <= i <= t.len(),
            tv == dv_entries(t@),
            tv.len() == t.len(),
            forall|j: int| 0 <= j < t.len() ==> tv[j] == (t@[j].0@, t@[j].1.dv()),
            first_unknown(tv, known, 0) == first_unknown(tv, known, i as int),
            known == (|k2: Seq<char>| chat_function_key_known(k2)),
        decreases t.len() - i,
    {
        let k = &t[i].0;
        if !(str_eq(k.as_str(), "type") || str_eq(k.as_str(), "variants") || str_eq(
            k.as_str(),
            "system_schema",
        ) || str_eq(k.as_str(), "user_schema") || str_eq(k.as_str(), "assistant_schema") || str_eq(
            k.as_str(),
            "tools",
        ) || str_eq(k.as_str(), "tool_choice") || str_eq(k.as_str(), "parallel_tool_calls")) {
            return Some(k.clone());
        }
        i += 1;
    }
    None
}

fn scan_json_function_keys(t: &Vec<(String, RawValue)>) -> (r: Option<String>)
    ensures
        match r {
            Some(k) => first_unknown(dv_entries(t@), |k2: Seq<char>| json_function_key_known(k2), 0)
                == Some(k@),
            None => first_unknown(
                dv_entries(t@),
                |k2: Seq<char>| json_function_key_known(k2),
                0,
            ) is None,
        },
{
    proof {
        lemma_dv_entries(t@);
    }
    let ghost tv = dv_entries(t@);
    let ghost known = |k2: Seq<char>| json_function_key_known(k2);
    let mut i: usize = 0;
    while i < t.len()
        invariant
            0 <= i <= t.len(),
            tv == dv_entries(t@),
            tv.len() == t.len(),
            forall|j: int| 0 <= j < t.len() ==> tv[j] == (t@[j].0@, t@[j].1.dv()),
            first_unknown(tv, known, 0) == first_unknown(tv, known, i as int),
            known == (|k2: Seq<char>| json_function_key_known(k2)),
        decreases t.len() - i,
    {
        let k = &t[i].0;
        if !(str_eq(k.as_str(), "type") || str_eq(k.as_str(), "variants") || str_eq(
            k.as_str(),
            "system_schema",
        ) || str_eq(k.as_str(), "user_schema") || str_eq(k.as_str(), "assistant_schema") || str_eq(
            k.as_str(),
            "output_schema",
        )) {
            return Some(k.clone());
        }
        i += 1;
    }
    None
}

fn req_variants(t: &Vec<(String, RawValue)>, path: &str) -> (r: Result<
    Vec<(String, VariantConfig)>,
    DeserError,
>)
    ensures
        res_dv(r) == spec_req_variants(dv_entries(t@), path@),
{
    match table_get(t, "variants") {
        None => Err(missing_field("variants", path)),
        Some(v) => {
            let p = extend_path(path, "variants");
            match expect_table(v, p.as_str()) {
                Err(e) => Err(e),
                Ok(sub) => deser_variants(sub, p.as_str()),
            }
        },
    }
}

/// Read one `[functions.<name>]` table.
pub fn deser_function(t: &Vec<(String, RawValue)>, path: &str) -> (r: Result<
    UninitializedFunctionConfig,
    DeserError,
>)
    ensures
        res_dv(r) == spec_deser_function(dv_entries(t@), path@),
{
    let tag = match table_get(t, "type") {
        None => {
            return Err(missing_field("type", path));
        },
        Some(v) => {
            let p = extend_path(path, "type");
            match expect_str(v, p.as_str()) {
                Err(e) => {
                    return Err(e);
                },
                Ok(s) => s,
            }
        },
    };
    if str_eq(tag.as_str(), "chat") {
        if let Some(k) = scan_chat_function_keys(t) {
            return Err(unknown_field(
                k.as_str(),
                "one of `type`, `variants`, `system_schema`, `user_schema`, `assistant_schema`, `tools`, `tool_choice`, `parallel_tool_calls`",
                path,
            ));
        }
        let variants = match req_variants(t, path) {
            Err(e) => {
                return Err(e);
            },
            Ok(v) => v,
        };
        let system_schema = match opt_str(t, "system_schema", path) {
            Err(e) => {
                return Err(e);
            },
            Ok(o) => o,
        };
        let user_schema = match opt_str(t, "user_schema", path) {
            Err(e) => {
                return Err(e);
            },
            Ok(o) => o,
        };
        let assistant_schema = match opt_str(t, "assistant_schema", path) {
            Err(e) => {
                return Err(e);
            },
            Ok(o) => o,
        };
        let tools = match table_get(t, "tools") {
            None => {
                let v: Vec<String> = Vec::new();
                proof {
                    assert(v.deep_view() =~= Seq::<Seq<char>>::empty());
                }
                v
            },
            Some(v) => {
                let p = extend_path(path, "tools");
                match expect_string_array(v, p.as_str()) {
                    Err(e) => {
                        return Err(e);
                    },
                    Ok(ts) => ts,
                }
            },
        };
        let tool_choice = match table_get(t, "tool_choice") {
            None => ToolChoice::Auto,
            Some(v) => {
                let p = extend_path(path, "tool_choice");
                match deser_tool_choice(v, p.as_str()) {
                    Err(e) => {
                        return Err(e);
                    },
                    Ok(tc) => tc,
                }
            },
        };
        let parallel_tool_calls = match opt_bool(t, "parallel_tool_calls", path) {
            Err(e) => {
                return Err(e);
            },
            Ok(b) => b,
        };
        Ok(UninitializedFunctionConfig::Chat(UninitializedFunctionConfigChat {
            variants,
            system_schema,
            user_schema,
            assistant_schema,
            tools,
            tool_choice,
            parallel_tool_calls,
        }))
    } else if str_eq(tag.as_str(), "json") {
        if let Some(k) = scan_json_function_keys(t) {
            return Err(unknown_field(
                k.as_str(),
                "one of `type`, `variants`, `system_schema`, `user_schema`, `assistant_schema`, `output_schema`",
                path,
            ));
        }
        let variants = match req_variants(t, path) {
            Err(e) => {
                return Err(e);
            },
            Ok(v) => v,
        };
        let system_schema = match opt_str(t, "system_schema", path) {
            Err(e) => {
                return Err(e);
            },
            Ok(o) => o,
        };
        let user_schema = match opt_str(t, "user_schema", path) {
            Err(e) => {
                return Err(e);
            },
            Ok(o) => o,
        };
        let assistant_schema = match opt_str(t, "assistant_schema", path) {
            Err(e) => {
                return Err(e);
            },
            Ok(o) => o,
        };
        let output_schema = match table_get(t, "output_schema") {
            None => {
                return Err(missing_field("output_schema", path));
            },
            Some(v) => {
                let p = extend_path(path, "output_schema");
                match expect_str(v, p.as_str()) {
                    Err(e) => {
                        return Err(e);
                    },
                    Ok(s) => s,
                }
            },
        };
        Ok(UninitializedFunctionConfig::Json(UninitializedFunctionConfigJson {
            variants,
            system_schema,
            user_schema,
            assistant_schema,
            output_schema,
        }))
    } else {
        let p = extend_path(path, "type");
        Err(unknown_variant(tag.as_str(), "`chat` or `json`", p.as_str()))
    }
}

/// An optional schema path compiled against the base directory.
pub open spec fn spec_compile_opt_schema(
    src: Seq<(Seq<char>, SchemaOutcomeV)>,
    base: Seq<char>,
    rel: Option<Seq<char>>,
) -> Result<Option<JsonSchemaV>, ErrorV> {
    match rel {
        None => Ok(None),
        Some(rel) => match spec_compile_schema(src, base, rel) {
            Err(e) => Err(e),
            Ok(s) => Ok(Some(s)),
        },
    }
}

/// Compile an optional schema path.
fn compile_opt_schema(src: &SchemaSource, base: &str, rel: &Option<String>) -> (r: Result<
    Option<JsonSchema>,
    Error,
>)
    ensures
        res_dv(r) == spec_compile_opt_schema(src.deep_view(), base@, rel.deep_view()),
{
    match rel {
        None => Ok(None),
        Some(rel) => match compile_schema(src, base, rel.as_str()) {
            Err(e) => Err(e),
            Ok(s) => Ok(Some(s)),
        },
    }
}

/// What resolving a declared function yields: each schema path compiled in
/// role order, and, for a JSON function, the output schema compiled both as
/// the function's own output schema and as the parameter schema of the
/// synthesized implicit tool, whose call configuration forces that one
/// specific tool without parallel calls.
pub open spec fn spec_load_function(
    u: UninitializedFunctionConfigV,
    src: Seq<(Seq<char>, SchemaOutcomeV)>,
    base: Seq<char>,
) -> Result<FunctionConfigV, ErrorV> {
    match u {
        UninitializedFunctionConfigV::Chat(c) => match spec_compile_opt_schema(src, base, c.system_schema) {
            Err(e) => Err(e),
            Ok(system_schema) => match spec_compile_opt_schema(src, base, c.user_schema) {
                Err(e) => Err(e),
                Ok(user_schema) => match spec_compile_opt_schema(src, base, c.assistant_schema) {
                    Err(e) => Err(e),
                    Ok(assistant_schema) => Ok(FunctionConfigV::Chat(FunctionConfigChatV {
                        variants: c.variants,
                        system_schema,
                        user_schema,
                        assistant_schema,
                        tools: c.tools,
                        tool_choice: c.tool_choice,
                        parallel_tool_calls: c.parallel_tool_calls,
                    })),
                },
            },
        },
        UninitializedFunctionConfigV::Json(c) => match spec_compile_opt_schema(src, base, c.system_schema) {
            Err(e) => Err(e),
            Ok(system_schema) => match spec_compile_opt_schema(src, base, c.user_schema) {
                Err(e) => Err(e),
                Ok(user_schema) => match spec_compile_opt_schema(src, base, c.assistant_schema) {
                    Err(e) => Err(e),
                    Ok(assistant_schema) => match spec_compile_schema(src, base, c.output_schema) {
                        Err(e) => Err(e),
                        Ok(output_schema) => Ok(FunctionConfigV::Json(FunctionConfigJsonV {
                            variants: c.variants,
                            system_schema,
                            user_schema,
                            assistant_schema,
                            output_schema,
                            implicit_tool_call_config: ToolCallConfigV {
                                tools_available: seq![
                                    ToolConfigV::Implicit(
                                        ImplicitToolConfigV { parameters: output_schema },
                                    ),
                                ],
                                tool_choice: ToolChoiceV::Specific(IMPLICIT_TOOL_NAME@),
                                parallel_tool_calls: false,
                            },
                        })),
                    },
                },
            },
        },
    }
}

impl UninitializedFunctionConfig {
    /// Resolve this declaration: compile every schema path it references,
    /// and for a JSON function synthesize the implicit tool that carries
    /// its output schema.
    pub fn load(self, base_path: &str, schemas: &SchemaSource) -> (r: Result<FunctionConfig, Error>)
        ensures
            res_dv(r) == spec_load_function(self.deep_view(), schemas.deep_view(), base_path@),
    {
        match self {
            UninitializedFunctionConfig::Chat(c) => {
                let system_schema = match compile_opt_schema(schemas, base_path, &c.system_schema) {
                    Err(e) => {
                        return Err(e);
                    },
                    Ok(s) => s,
                };
                let user_schema = match compile_opt_schema(schemas, base_path, &c.user_schema) {
                    Err(e) => {
                        return Err(e);
                    },
                    Ok(s) => s,
                };
                let assistant_schema = match compile_opt_schema(
                    schemas,
                    base_path,
                    &c.assistant_schema,
                ) {
                    Err(e) => {
                        return Err(e);
                    },
                    Ok(s) => s,
                };
                Ok(FunctionConfig::Chat(FunctionConfigChat {
                    variants: c.variants,
                    system_schema,
                    user_schema,
                    assistant_schema,
                    tools: c.tools,
                    tool_choice: c.tool_choice,
                    parallel_tool_calls: c.parallel_tool_calls,
                }))
            },
            UninitializedFunctionConfig::Json(c) => {
                let system_schema = match compile_opt_schema(schemas, base_path, &c.system_schema) {
                    Err(e) => {
                        return Err(e);
                    },
                    Ok(s) => s,
                };
                let user_schema = match compile_opt_schema(schemas, base_path, &c.user_schema) {
                    Err(e) => {
                        return Err(e);
                    },
                    Ok(s) => s,
                };
                let assistant_schema = match compile_opt_schema(
                    schemas,
                    base_path,
                    &c.assistant_schema,
                ) {
                    Err(e) => {
                        return Err(e);
                    },
                    Ok(s) => s,
                };
                let output_schema = match compile_schema(
                    schemas,
                    base_path,
                    c.output_schema.as_str(),
                ) {
                    Err(e) => {
                        return Err(e);
                    },
                    Ok(s) => s,
                };
                let implicit_tool_output_schema = match compile_schema(
                    schemas,
                    base_path,
                    c.output_schema.as_str(),
                ) {
                    Err(e) => {
                        return Err(e);
                    },
                    Ok(s) => s,
                };
                let implicit_tool = ToolConfig::Implicit(ImplicitToolConfig {
                    parameters: implicit_tool_output_schema,
                });
                let mut tools_available: Vec<ToolConfig> = Vec::new();
                tools_available.push(implicit_tool);
                let implicit_tool_call_config = ToolCallConfig {
                    tools_available,
                    tool_choice: ToolChoice::Specific(IMPLICIT_TOOL_NAME.to_owned()),
                    parallel_tool_calls: false,
                };
                proof {
                    assert(implicit_tool_call_config.tools_available.deep_view() =~= seq![
                        ToolConfigV::Implicit(
                            ImplicitToolConfigV { parameters: output_schema.deep_view() },
                        ),
                    ]);
                }
                Ok(FunctionConfig::Json(FunctionConfigJson {
                    variants: c.variants,
                    system_schema,
                    user_schema,
                    assistant_schema,
                    output_schema,
                    implicit_tool_call_config,
                }))
            },
        }
    }
}

} // verus!
