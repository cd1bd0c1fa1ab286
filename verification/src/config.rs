//! The declaration model of a whole document, its resolution, and the
//! immutable registry the rest of the gateway queries.

use vstd::prelude::*;

use crate::de::{
    render,
    alist_get, expect_table, find, first_unknown, missing_field, missing_field_v, res_dv,
    spec_expect_table, table_get, unknown_field, unknown_field_v, assoc_find, DeserError,
    DeserErrorV,
};
use crate::error::{Error, ErrorV};
use crate::function::{
    deser_function, spec_deser_function, spec_load_function, spec_variants_of, FunctionConfig,
    FunctionConfigV, UninitializedFunctionConfig, UninitializedFunctionConfigV,
};
use crate::gateway::{deser_gateway, spec_deser_gateway, spec_gateway_default, GatewayConfig, GatewayConfigV};
use crate::metric::{deser_metric, spec_deser_metric, MetricConfig};
use crate::model::{deser_model, spec_deser_model, ModelConfig, ModelConfigV};
use crate::raw::{dv_entries, lemma_dv_entries, RawVal, RawValue};
use crate::schema::{spec_join_path, join_path, SchemaOutcomeV, SchemaSource};
use crate::template::{TemplateConfig, TemplateEntryV, TemplateSource};
use crate::text::{extend_path, spec_extend_path, str_eq};
use crate::tool::{
    deser_tool, spec_deser_tool, spec_load_tool, StaticToolConfig, StaticToolConfigV,
    UninitializedToolConfig, UninitializedToolConfigV,
};
use crate::variant::{VariantConfig, VariantConfigV};

verus! {

/// Ghost mirror of `UninitializedConfig`.
#[verifier::ext_equal]
pub struct UninitializedConfigV {
    pub gateway: Option<GatewayConfigV>,
    pub models: Seq<(Seq<char>, ModelConfigV)>,
    pub functions: Seq<(Seq<char>, UninitializedFunctionConfigV)>,
    pub metrics: Seq<(Seq<char>, MetricConfig)>,
    pub tools: Seq<(Seq<char>, UninitializedToolConfigV)>,
}

/// A whole document as declared, before any filesystem reference is
/// resolved.  Only data obtainable by pure structural parsing lives here;
/// the resolver consumes it by move, so nothing after a load sees an
/// unresolved entity.
#[derive(Debug)]
pub struct UninitializedConfig {
    pub gateway: Option<GatewayConfig>,
    pub models: Vec<(String, ModelConfig)>,
    pub functions: Vec<(String, UninitializedFunctionConfig)>,
    pub metrics: Vec<(String, MetricConfig)>,
    pub tools: Vec<(String, UninitializedToolConfig)>,
}

impl DeepView for UninitializedConfig {
    type V = UninitializedConfigV;

    open spec fn deep_view(&self) -> UninitializedConfigV {
        UninitializedConfigV {
            gateway: self.gateway.deep_view(),
            models: self.models.deep_view(),
            functions: self.functions.deep_view(),
            metrics: self.metrics.deep_view(),
            tools: self.tools.deep_view(),
        }
    }
}

/// Ghost mirror of `Config`.
#[verifier::ext_equal]
pub struct ConfigV {
    pub gateway: GatewayConfigV,
    pub models: Seq<(Seq<char>, ModelConfigV)>,
    pub functions: Seq<(Seq<char>, FunctionConfigV)>,
    pub metrics: Seq<(Seq<char>, MetricConfig)>,
    pub tools: Seq<(Seq<char>, StaticToolConfigV)>,
    pub templates: Seq<(Seq<char>, TemplateEntryV)>,
}

/// The immutable registry a successful load publishes: every entity fully
/// resolved and cross-checked, plus the initialized template registry.
#[derive(Debug)]
pub struct Config {
    pub gateway: GatewayConfig,
    pub models: Vec<(String, ModelConfig)>,
    pub functions: Vec<(String, FunctionConfig)>,
    pub metrics: Vec<(String, MetricConfig)>,
    pub tools: Vec<(String, StaticToolConfig)>,
    pub templates: TemplateConfig,
}

impl DeepView for Config {
    type V = ConfigV;

    open spec fn deep_view(&self) -> ConfigV {
        ConfigV {
            gateway: self.gateway.deep_view(),
            models: self.models.deep_view(),
            functions: self.functions.deep_view(),
            metrics: self.metrics.deep_view(),
            tools: self.tools.deep_view(),
            templates: self.templates.deep_view(),
        }
    }
}

pub open spec fn root_key_known(k: Seq<char>) -> bool {
    ||| k == "gateway"@
    ||| k == "models"@
    ||| k == "functions"@
    ||| k == "metrics"@
    ||| k == "tools"@
}

/// The models map, entry by entry in document order.
pub open spec fn spec_deser_models_from(t: Seq<(Seq<char>, RawVal)>, i: int) -> Result<
    Seq<(Seq<char>, ModelConfigV)>,
    DeserErrorV,
>
    decreases t.len() - i,
{
    if i < 0 || i >= t.len() {
        Ok(Seq::empty())
    } else {
        let entry_path = spec_extend_path("models"@, t[i].0);
        match spec_expect_table(t[i].1, entry_path) {
            Err(e) => Err(e),
            Ok(sub) => match spec_deser_model(sub, entry_path) {
                Err(e) => Err(e),
                Ok(m) => match spec_deser_models_from(t, i + 1) {
                    Err(e) => Err(e),
                    Ok(rest) => Ok(seq![(t[i].0, m)] + rest),
                },
            },
        }
    }
}

/// The functions map, entry by entry in document order.
pub open spec fn spec_deser_functions_from(t: Seq<(Seq<char>, RawVal)>, i: int) -> Result<
    Seq<(Seq<char>, UninitializedFunctionConfigV)>,
    DeserErrorV,
>
    decreases t.len() - i,
{
    if i < 0 || i >= t.len() {
        Ok(Seq::empty())
    } else {
        let entry_path = spec_extend_path("functions"@, t[i].0);
        match spec_expect_table(t[i].1, entry_path) {
            Err(e) => Err(e),
            Ok(sub) => match spec_deser_function(sub, entry_path) {
                Err(e) => Err(e),
                Ok(f) => match spec_deser_functions_from(t, i + 1) {
                    Err(e) => Err(e),
                    Ok(rest) => Ok(seq![(t[i].0, f)] + rest),
                },
            },
        }
    }
}

/// The metrics map, entry by entry in document order.
pub open spec fn spec_deser_metrics_from(t: Seq<(Seq<char>, RawVal)>, i: int) -> Result<
    Seq<(Seq<char>, MetricConfig)>,
    DeserErrorV,
>
    decreases t.len() - i,
{
    if i < 0 || i >= t.len() {
        Ok(Seq::empty())
    } else {
        let entry_path = spec_extend_path("metrics"@, t[i].0);
        match spec_expect_table(t[i].1, entry_path) {
            Err(e) => Err(e),
            Ok(sub) => match spec_deser_metric(sub, entry_path) {
                Err(e) => Err(e),
                Ok(m) => match spec_deser_metrics_from(t, i + 1) {
                    Err(e) => Err(e),
                    Ok(rest) => Ok(seq![(t[i].0, m)] + rest),
                },
            },
        }
    }
}

/// The tools map, entry by entry in document order.
pub open spec fn spec_deser_tools_from(t: Seq<(Seq<char>, RawVal)>, i: int) -> Result<
    Seq<(Seq<char>, UninitializedToolConfigV)>,
    DeserErrorV,
>
    decreases t.len() - i,
{
    if i < 0 || i >= t.len() {
        Ok(Seq::empty())
    } else {
        let entry_path = spec_extend_path("tools"@, t[i].0);
        match spec_expect_table(t[i].1, entry_path) {
            Err(e) => Err(e),
            Ok(sub) => match spec_deser_tool(sub, entry_path) {
                Err(e) => Err(e),
                Ok(u) => match spec_deser_tools_from(t, i + 1) {
                    Err(e) => Err(e),
                    Ok(rest) => Ok(seq![(t[i].0, u)] + rest),
                },
            },
        }
    }
}

/// The whole document, strictly: its five known sections, of which
/// `models` and `functions` must be present and `metrics` and `tools`
/// default to empty.
pub open spec fn spec_deser_config(t: Seq<(Seq<char>, RawVal)>) -> Result<
    UninitializedConfigV,
    DeserErrorV,
> {
    match first_unknown(t, |k: Seq<char>| root_key_known(k), 0) {
        Some(k) => Err(unknown_field_v(
            k,
            "one of `gateway`, `models`, `functions`, `metrics`, `tools`"@,
            ""@,
        )),
        None => {
            let gateway_r = match alist_get(t, "gateway"@) {
                None => Ok(None),
                Some(v) => match spec_expect_table(v, "gateway"@) {
                    Err(e) => Err(e),
                    Ok(sub) => match spec_deser_gateway(sub, "gateway"@) {
                        Err(e) => Err(e),
                        Ok(g) => Ok(Some(g)),
                    },
                },
            };
            match gateway_r {
                Err(e) => Err(e),
                Ok(gateway) => match alist_get(t, "models"@) {
                    None => Err(missing_field_v("models"@, ""@)),
                    Some(v) => match spec_expect_table(v, "models"@) {
                        Err(e) => Err(e),
                        Ok(sub) => match spec_deser_models_from(sub, 0) {
                            Err(e) => Err(e),
                            Ok(models) => match alist_get(t, "functions"@) {
                                None => Err(missing_field_v("functions"@, ""@)),
                                Some(v2) => match spec_expect_table(v2, "functions"@) {
                                    Err(e) => Err(e),
                                    Ok(sub2) => match spec_deser_functions_from(sub2, 0) {
                                        Err(e) => Err(e),
                                        Ok(functions) => {
                                            let metrics_r = match alist_get(t, "metrics"@) {
                                                None => Ok(Seq::empty()),
                                                Some(v3) => match spec_expect_table(v3, "metrics"@) {
                                                    Err(e) => Err(e),
                                                    Ok(sub3) => spec_deser_metrics_from(sub3, 0),
                                                },
                                            };
                                            match metrics_r {
                                                Err(e) => Err(e),
                                                Ok(metrics) => {
                                                    let tools_r = match alist_get(t, "tools"@) {
                                                        None => Ok(Seq::empty()),
                                                        Some(v4) => match spec_expect_table(v4, "tools"@) {
                                                            Err(e) => Err(e),
                                                            Ok(sub4) => spec_deser_tools_from(sub4, 0),
                                                        },
                                                    };
                                                    match tools_r {
                                                        Err(e) => Err(e),
                                                        Ok(tools) => Ok(UninitializedConfigV {
                                                            gateway,
                                                            models,
                                                            functions,
                                                            metrics,
                                                            tools,
                                                        }),
                                                    }
                                                },
                                            }
                                        },
                                    },
                                },
                            },
                        },
                    },
                },
            }
        },
    }
}

fn scan_root_keys(t: &Vec<(String, RawValue)>) -> (r: Option<String>)
    ensures
        match r {
            Some(k) => first_unknown(dv_entries(t@), |k2: Seq<char>| root_key_known(k2), 0) == Some(
                k@,
            ),
            None => first_unknown(dv_entries(t@), |k2: Seq<char>| root_key_known(k2), 0) is None,
        },
{
    proof {
        lemma_dv_entries(t@);
    }
    let ghost tv = dv_entries(t@);
    let ghost known = |k2: Seq<char>| root_key_known(k2);
    let mut i: usize = 0;
    while i < t.len()
        invariant
            0 <= i <= t.len(),
            tv == dv_entries(t@),
            tv.len() == t.len(),
            forall|j: int| 0 <= j < t.len() ==> tv[j] == (t@[j].0@, t@[j].1.dv()),
            first_unknown(tv, known, 0) == first_unknown(tv, known, i as int),
            known == (|k2: Seq<char>| root_key_known(k2)),
        decreases t.len() - i,
    {
        let k = &t[i].0;
        if !(str_eq(k.as_str(), "gateway") || str_eq(k.as_str(), "models") || str_eq(
            k.as_str(),
            "functions",
        ) || str_eq(k.as_str(), "metrics") || str_eq(k.as_str(), "tools")) {
            return Some(k.clone());
        }
        i += 1;
    }
    None
}

fn deser_models(t: &Vec<(String, RawValue)>) -> (r: Result<Vec<(String, ModelConfig)>, DeserError>)
    ensures
        res_dv(r) == spec_deser_models_from(dv_entries(t@), 0),
{
    proof {
        lemma_dv_entries(t@);
    }
    let ghost tv = dv_entries(t@);
    let ghost full = spec_deser_models_from(tv, 0);
    let mut out: Vec<(String, ModelConfig)> = Vec::new();
    let mut i: usize = 0;
    while i < t.len()
        invariant
            0 <= i <= t.len(),
            tv == dv_entries(t@),
            tv.len() == t.len(),
            forall|j: int| 0 <= j < t.len() ==> tv[j] == (t@[j].0@, t@[j].1.dv()),
            full == spec_deser_models_from(tv, 0),
            out.len() == i,
            match spec_deser_models_from(tv, i as int) {
                Err(e) => full == Err::<Seq<(Seq<char>, ModelConfigV)>, DeserErrorV>(e),
                Ok(rest) => full == Ok::<Seq<(Seq<char>, ModelConfigV)>, DeserErrorV>(
                    out.deep_view() + rest,
                ),
            },
        decreases t.len() - i,
    {
        let name = &t[i].0;
        let entry_path = extend_path("models", name.as_str());
        let sub = match expect_table(&t[i].1, entry_path.as_str()) {
            Err(e) => {
                return Err(e);
            },
            Ok(sub) => sub,
        };
        let ghost out0 = out.deep_view();
        match deser_model(sub, entry_path.as_str()) {
            Err(e) => {
                return Err(e);
            },
            Ok(m) => {
                let ghost mv = m.deep_view();
                let owned_name = name.clone();
                out.push((owned_name, m));
                proof {
                    assert(out.deep_view() =~= out0.push((tv[i as int].0, mv)));
                    match spec_deser_models_from(tv, i + 1 as int) {
                        Err(e) => {},
                        Ok(rest) => {
                            assert(out0 + (seq![(tv[i as int].0, mv)] + rest) =~= out.deep_view()
                                + rest);
                        },
                    }
                }
            },
        }
        i += 1;
    }
    proof {
        assert(out.deep_view() + Seq::<(Seq<char>, ModelConfigV)>::empty() =~= out.deep_view());
    }
    Ok(out)
}

fn deser_functions(t: &Vec<(String, RawValue)>) -> (r: Result<
    Vec<(String, UninitializedFunctionConfig)>,
    DeserError,
>)
    ensures
        res_dv(r) == spec_deser_functions_from(dv_entries(t@), 0),
{
    proof {
        lemma_dv_entries(t@);
    }
    let ghost tv = dv_entries(t@);
    let ghost full = spec_deser_functions_from(tv, 0);
    let mut out: Vec<(String, UninitializedFunctionConfig)> = Vec::new();
    let mut i: usize = 0;
    while i < t.len()
        invariant
            0 <= i <= t.len(),
            tv == dv_entries(t@),
            tv.len() == t.len(),
            forall|j: int| 0 <= j < t.len() ==> tv[j] == (t@[j].0@, t@[j].1.dv()),
            full == spec_deser_functions_from(tv, 0),
            out.len() == i,
            match spec_deser_functions_from(tv, i as int) {
                Err(e) => full == Err::<Seq<(Seq<char>, UninitializedFunctionConfigV)>, DeserErrorV>(e),
                Ok(rest) => full == Ok::<Seq<(Seq<char>, UninitializedFunctionConfigV)>, DeserErrorV>(
                    out.deep_view() + rest,
                ),
            },
        decreases t.len() - i,
    {
        let name = &t[i].0;
        let entry_path = extend_path("functions", name.as_str());
        let sub = match expect_table(&t[i].1, entry_path.as_str()) {
            Err(e) => {
                return Err(e);
            },
            Ok(sub) => sub,
        };
        let ghost out0 = out.deep_view();
        match deser_function(sub, entry_path.as_str()) {
            Err(e) => {
                return Err(e);
            },
            Ok(f) => {
                let ghost fv = f.deep_view();
                let owned_name = name.clone();
                out.push((owned_name, f));
                proof {
                    assert(out.deep_view() =~= out0.push((tv[i as int].0, fv)));
                    match spec_deser_functions_from(tv, i + 1 as int) {
                        Err(e) => {},
                        Ok(rest) => {
                            assert(out0 + (seq![(tv[i as int].0, fv)] + rest) =~= out.deep_view()
                                + rest);
                        },
                    }
                }
            },
        }
        i += 1;
    }
    proof {
        assert(out.deep_view() + Seq::<(Seq<char>, UninitializedFunctionConfigV)>::empty()
            =~= out.deep_view());
    }
    Ok(out)
}

fn deser_metrics(t: &Vec<(String, RawValue)>) -> (r: Result<
    Vec<(String, MetricConfig)>,
    DeserError,
>)
    ensures
        res_dv(r) == spec_deser_metrics_from(dv_entries(t@), 0),
{
    proof {
        lemma_dv_entries(t@);
    }
    let ghost tv = dv_entries(t@);
    let ghost full = spec_deser_metrics_from(tv, 0);
    let mut out: Vec<(String, MetricConfig)> = Vec::new();
    let mut i: usize = 0;
    while i < t.len()
        invariant
            0 <= i <= t.len(),
            tv == dv_entries(t@),
            tv.len() == t.len(),
            forall|j: int| 0 <= j < t.len() ==> tv[j] == (t@[j].0@, t@[j].1.dv()),
            full == spec_deser_metrics_from(tv, 0),
            out.len() == i,
            match spec_deser_metrics_from(tv, i as int) {
                Err(e) => full == Err::<Seq<(Seq<char>, MetricConfig)>, DeserErrorV>(e),
                Ok(rest) => full == Ok::<Seq<(Seq<char>, MetricConfig)>, DeserErrorV>(
                    out.deep_view() + rest,
                ),
            },
        decreases t.len() - i,
    {
        let name = &t[i].0;
        let entry_path = extend_path("metrics", name.as_str());
        let sub = match expect_table(&t[i].1, entry_path.as_str()) {
            Err(e) => {
                return Err(e);
            },
            Ok(sub) => sub,
        };
        let ghost out0 = out.deep_view();
        match deser_metric(sub, entry_path.as_str()) {
            Err(e) => {
                return Err(e);
            },
            Ok(m) => {
                let owned_name = name.clone();
                out.push((owned_name, m));
                proof {
                    assert(out.deep_view() =~= out0.push((tv[i as int].0, out@[i as int].1)));
                    match spec_deser_metrics_from(tv, i + 1 as int) {
                        Err(e) => {},
                        Ok(rest) => {
                            assert(out0 + (seq![(tv[i as int].0, out@[i as int].1)] + rest)
                                =~= out.deep_view() + rest);
                        },
                    }
                }
            },
        }
        i += 1;
    }
    proof {
        assert(out.deep_view() + Seq::<(Seq<char>, MetricConfig)>::empty() =~= out.deep_view());
    }
    Ok(out)
}

fn deser_tools(t: &Vec<(String, RawValue)>) -> (r: Result<
    Vec<(String, UninitializedToolConfig)>,
    DeserError,
>)
    ensures
        res_dv(r) == spec_deser_tools_from(dv_entries(t@), 0),
{
    proof {
        lemma_dv_entries(t@);
    }
    let ghost tv = dv_entries(t@);
    let ghost full = spec_deser_tools_from(tv, 0);
    let mut out: Vec<(String, UninitializedToolConfig)> = Vec::new();
    let mut i: usize = 0;
    while i < t.len()
        invariant
            0 <= i <= t.len(),
            tv == dv_entries(t@),
            tv.len() == t.len(),
            forall|j: int| 0 <= j < t.len() ==> tv[j] == (t@[j].0@, t@[j].1.dv()),
            full == spec_deser_tools_from(tv, 0),
            out.len() == i,
            match spec_deser_tools_from(tv, i as int) {
                Err(e) => full == Err::<Seq<(Seq<char>, UninitializedToolConfigV)>, DeserErrorV>(e),
                Ok(rest) => full == Ok::<Seq<(Seq<char>, UninitializedToolConfigV)>, DeserErrorV>(
                    out.deep_view() + rest,
                ),
            },
        decreases t.len() - i,
    {
        let name = &t[i].0;
        let entry_path = extend_path("tools", name.as_str());
        let sub = match expect_table(&t[i].1, entry_path.as_str()) {
            Err(e) => {
                return Err(e);
            },
            Ok(sub) => sub,
        };
        let ghost out0 = out.deep_view();
        match deser_tool(sub, entry_path.as_str()) {
            Err(e) => {
                return Err(e);
            },
            Ok(u) => {
                let ghost uv = u.deep_view();
                let owned_name = name.clone();
                out.push((owned_name, u));
                proof {
                    assert(out.deep_view() =~= out0.push((tv[i as int].0, uv)));
                    match spec_deser_tools_from(tv, i + 1 as int) {
                        Err(e) => {},
                        Ok(rest) => {
                            assert(out0 + (seq![(tv[i as int].0, uv)] + rest) =~= out.deep_view()
                                + rest);
                        },
                    }
                }
            },
        }
        i += 1;
    }
    proof {
        assert(out.deep_view() + Seq::<(Seq<char>, UninitializedToolConfigV)>::empty()
            =~= out.deep_view());
    }
    Ok(out)
}

impl UninitializedConfig {
    /// Read a whole document into the declaration model.
    pub fn deser(t: &Vec<(String, RawValue)>) -> (r: Result<UninitializedConfig, DeserError>)
        ensures
            res_dv(r) == spec_deser_config(dv_entries(t@)),
    {
        if let Some(k) = scan_root_keys(t) {
            return Err(unknown_field(
                k.as_str(),
                "one of `gateway`, `models`, `functions`, `metrics`, `tools`",
                "",
            ));
        }
        let gateway = match table_get(t, "gateway") {
            None => None,
            Some(v) => match expect_table(v, "gateway") {
                Err(e) => {
                    return Err(e);
                },
                Ok(sub) => match deser_gateway(sub, "gateway") {
                    Err(e) => {
                        return Err(e);
                    },
                    Ok(g) => Some(g),
                },
            },
        };
        let models = match table_get(t, "models") {
            None => {
                return Err(missing_field("models", ""));
            },
            Some(v) => match expect_table(v, "models") {
                Err(e) => {
                    return Err(e);
                },
                Ok(sub) => match deser_models(sub) {
                    Err(e) => {
                        return Err(e);
                    },
                    Ok(ms) => ms,
                },
            },
        };
        let functions = match table_get(t, "functions") {
            None => {
                return Err(missing_field("functions", ""));
            },
            Some(v) => match expect_table(v, "functions") {
                Err(e) => {
                    return Err(e);
                },
                Ok(sub) => match deser_functions(sub) {
                    Err(e) => {
                        return Err(e);
                    },
                    Ok(fs) => fs,
                },
            },
        };
        let metrics = match table_get(t, "metrics") {
            None => {
                let v: Vec<(String, MetricConfig)> = Vec::new();
                proof {
                    assert(v.deep_view() =~= Seq::<(Seq<char>, MetricConfig)>::empty());
                }
                v
            },
            Some(v) => match expect_table(v, "metrics") {
                Err(e) => {
                    return Err(e);
                },
                Ok(sub) => match deser_metrics(sub) {
                    Err(e) => {
                        return Err(e);
                    },
                    Ok(ms) => ms,
                },
            },
        };
        let tools = match table_get(t, "tools") {
            None => {
                let v: Vec<(String, UninitializedToolConfig)> = Vec::new();
                proof {
                    assert(v.deep_view() =~= Seq::<(Seq<char>, UninitializedToolConfigV)>::empty());
                }
                v
            },
            Some(v) => match expect_table(v, "tools") {
                Err(e) => {
                    return Err(e);
                },
                Ok(sub) => match deser_tools(sub) {
                    Err(e) => {
                        return Err(e);
                    },
                    Ok(ts) => ts,
                },
            },
        };
        Ok(UninitializedConfig { gateway, models, functions, metrics, tools })
    }
}

/// The resolved functions, in order: each declared function loaded against
/// the base directory.
pub open spec fn spec_load_functions_from(
    fs: Seq<(Seq<char>, UninitializedFunctionConfigV)>,
    src: Seq<(Seq<char>, SchemaOutcomeV)>,
    base: Seq<char>,
    i: int,
) -> Result<Seq<(Seq<char>, FunctionConfigV)>, ErrorV>
    decreases fs.len() - i,
{
    if i < 0 || i >= fs.len() {
        Ok(Seq::empty())
    } else {
        match spec_load_function(fs[i].1, src, base) {
            Err(e) => Err(e),
            Ok(f) => match spec_load_functions_from(fs, src, base, i + 1) {
                Err(e) => Err(e),
                Ok(rest) => Ok(seq![(fs[i].0, f)] + rest),
            },
        }
    }
}

/// The resolved tools, in order: each declared tool loaded against the base
/// directory under its declared name.
pub open spec fn spec_load_tools_from(
    ts: Seq<(Seq<char>, UninitializedToolConfigV)>,
    src: Seq<(Seq<char>, SchemaOutcomeV)>,
    base: Seq<char>,
    i: int,
) -> Result<Seq<(Seq<char>, StaticToolConfigV)>, ErrorV>
    decreases ts.len() - i,
{
    if i < 0 || i >= ts.len() {
        Ok(Seq::empty())
    } else {
        match spec_load_tool(ts[i].1, src, base, ts[i].0) {
            Err(e) => Err(e),
            Ok(tc) => match spec_load_tools_from(ts, src, base, i + 1) {
                Err(e) => Err(e),
                Ok(rest) => Ok(seq![(ts[i].0, tc)] + rest),
            },
        }
    }
}

/// Resolve every declared function.
#[verifier::loop_isolation(false)]
fn load_functions(
    fs: Vec<(String, UninitializedFunctionConfig)>,
    base_path: &str,
    schemas: &SchemaSource,
) -> (r: Result<Vec<(String, FunctionConfig)>, Error>)
    ensures
        res_dv(r) == spec_load_functions_from(
            fs.deep_view(),
            schemas.deep_view(),
            base_path@,
            0,
        ),
{
    let ghost fsv = fs.deep_view();
    let ghost full = spec_load_functions_from(fsv, schemas.deep_view(), base_path@, 0);
    let mut rem = fs;
    let mut out: Vec<(String, FunctionConfig)> = Vec::new();
    let ghost mut i: int = 0;
    while rem.len() > 0
        invariant
            0 <= i <= fsv.len(),
            i + rem.len() == fsv.len(),
            rem.deep_view() =~= fsv.subrange(i as int, fsv.len() as int),
            full == spec_load_functions_from(fsv, schemas.deep_view(), base_path@, 0),
            out.len() == i,
            match spec_load_functions_from(fsv, schemas.deep_view(), base_path@, i as int) {
                Err(e) => full == Err::<Seq<(Seq<char>, FunctionConfigV)>, ErrorV>(e),
                Ok(rest) => full == Ok::<Seq<(Seq<char>, FunctionConfigV)>, ErrorV>(
                    out.deep_view() + rest,
                ),
            },
        decreases rem.len(),
    {
        let ghost rem_pre = rem@;
        let ghost rem_pre_dv = rem.deep_view();
        let pair = rem.remove(0);
        let ghost fv = pair.1.deep_view();
        proof {
            assert((pair.0@, fv) == rem_pre_dv[0]);
            assert(rem_pre_dv[0] == fsv.subrange(i as int, fsv.len() as int)[0]);
            assert((pair.0@, fv) == fsv[i as int]);
            assert forall|j: int| 0 <= j < rem.deep_view().len() implies rem.deep_view()[j]
                == fsv.subrange(i + 1 as int, fsv.len() as int)[j] by {
                assert(rem.deep_view()[j] == rem@[j].deep_view());
                assert(rem@[j] == rem_pre[j + 1]);
                assert(rem_pre[j + 1].deep_view() == rem_pre_dv[j + 1]);
                assert(rem_pre_dv[j + 1] == fsv.subrange(i as int, fsv.len() as int)[j + 1]);
            }
            assert(rem.deep_view() =~= fsv.subrange(i + 1 as int, fsv.len() as int));
        }
        let name = pair.0;
        let ghost out0 = out.deep_view();
        match pair.1.load(base_path, schemas) {
            Err(e) => {
                return Err(e);
            },
            Ok(f) => {
                let ghost fres = f.deep_view();
                out.push((name, f));
                proof {
                    assert(out.deep_view() =~= out0.push((fsv[i as int].0, fres)));
                    match spec_load_functions_from(fsv, schemas.deep_view(), base_path@, i + 1 as int) {
                        Err(e) => {},
                        Ok(rest) => {
                            assert(out0 + (seq![(fsv[i as int].0, fres)] + rest) =~= out.deep_view()
                                + rest);
                        },
                    }
                }
            },
        }
        proof { i = i + 1; }
    }
    proof {
        assert(out.deep_view() + Seq::<(Seq<char>, FunctionConfigV)>::empty() =~= out.deep_view());
    }
    Ok(out)
}

/// Resolve every declared tool.
#[verifier::loop_isolation(false)]
fn load_tools(
    ts: Vec<(String, UninitializedToolConfig)>,
    base_path: &str,
    schemas: &SchemaSource,
) -> (r: Result<Vec<(String, StaticToolConfig)>, Error>)
    ensures
        res_dv(r) == spec_load_tools_from(ts.deep_view(), schemas.deep_view(), base_path@, 0),
{
    let ghost tsv = ts.deep_view();
    let ghost full = spec_load_tools_from(tsv, schemas.deep_view(), base_path@, 0);
    let mut rem = ts;
    let mut out: Vec<(String, StaticToolConfig)> = Vec::new();
    let ghost mut i: int = 0;
    while rem.len() > 0
        invariant
            0 <= i <= tsv.len(),
            i + rem.len() == tsv.len(),
            rem.deep_view() =~= tsv.subrange(i as int, tsv.len() as int),
            full == spec_load_tools_from(tsv, schemas.deep_view(), base_path@, 0),
            out.len() == i,
            match spec_load_tools_from(tsv, schemas.deep_view(), base_path@, i as int) {
                Err(e) => full == Err::<Seq<(Seq<char>, StaticToolConfigV)>, ErrorV>(e),
                Ok(rest) => full == Ok::<Seq<(Seq<char>, StaticToolConfigV)>, ErrorV>(
                    out.deep_view() + rest,
                ),
            },
        decreases rem.len(),
    {
        let ghost rem_pre = rem@;
        let ghost rem_pre_dv = rem.deep_view();
        let pair = rem.remove(0);
        let ghost uv = pair.1.deep_view();
        proof {
            assert((pair.0@, uv) == rem_pre_dv[0]);
            assert(rem_pre_dv[0] == tsv.subrange(i as int, tsv.len() as int)[0]);
            assert((pair.0@, uv) == tsv[i as int]);
            assert forall|j: int| 0 <= j < rem.deep_view().len() implies rem.deep_view()[j]
                == tsv.subrange(i + 1 as int, tsv.len() as int)[j] by {
                assert(rem.deep_view()[j] == rem@[j].deep_view());
                assert(rem@[j] == rem_pre[j + 1]);
                assert(rem_pre[j + 1].deep_view() == rem_pre_dv[j + 1]);
                assert(rem_pre_dv[j + 1] == tsv.subrange(i as int, tsv.len() as int)[j + 1]);
            }
            assert(rem.deep_view() =~= tsv.subrange(i + 1 as int, tsv.len() as int));
        }
        let name = pair.0;
        let name_again = name.clone();
        let ghost out0 = out.deep_view();
        match pair.1.load(base_path, name_again, schemas) {
            Err(e) => {
                return Err(e);
            },
            Ok(tc) => {
                let ghost tres = tc.deep_view();
                out.push((name, tc));
                proof {
                    assert(out.deep_view() =~= out0.push((tsv[i as int].0, tres)));
                    match spec_load_tools_from(tsv, schemas.deep_view(), base_path@, i + 1 as int) {
                        Err(e) => {},
                        Ok(rest) => {
                            assert(out0 + (seq![(tsv[i as int].0, tres)] + rest) =~= out.deep_view()
                                + rest);
                        },
                    }
                }
            },
        }
        proof { i = i + 1; }
    }
    proof {
        assert(out.deep_view() + Seq::<(Seq<char>, StaticToolConfigV)>::empty() =~= out.deep_view());
    }
    Ok(out)
}

/// One template path added to the mapping: keyed by the path as written,
/// valued by the path resolved against the base directory, first writer
/// wins.
pub open spec fn spec_add_template(
    acc: Seq<(Seq<char>, Seq<char>)>,
    base: Seq<char>,
    p: Option<Seq<char>>,
) -> Seq<(Seq<char>, Seq<char>)> {
    match p {
        None => acc,
        Some(p) => if find(acc, p) is Some {
            acc
        } else {
            acc.push((p, spec_join_path(base, p)))
        },
    }
}

/// The template paths of one variant, system then user then assistant.
pub open spec fn spec_add_variant_templates(
    acc: Seq<(Seq<char>, Seq<char>)>,
    base: Seq<char>,
    v: VariantConfigV,
) -> Seq<(Seq<char>, Seq<char>)> {
    match v {
        VariantConfigV::ChatCompletion(c) => spec_add_template(
            spec_add_template(spec_add_template(acc, base, c.system_template), base, c.user_template),
            base,
            c.assistant_template,
        ),
    }
}

/// The template paths of a function's variants, in order.
pub open spec fn spec_add_variants_templates(
    acc: Seq<(Seq<char>, Seq<char>)>,
    base: Seq<char>,
    vs: Seq<(Seq<char>, VariantConfigV)>,
    i: int,
) -> Seq<(Seq<char>, Seq<char>)>
    decreases vs.len() - i,
{
    if i < 0 || i >= vs.len() {
        acc
    } else {
        spec_add_variants_templates(spec_add_variant_templates(acc, base, vs[i].1), base, vs, i + 1)
    }
}

/// The template paths of every function, in order.
pub open spec fn spec_gather_templates_from(
    acc: Seq<(Seq<char>, Seq<char>)>,
    base: Seq<char>,
    fs: Seq<(Seq<char>, FunctionConfigV)>,
    i: int,
) -> Seq<(Seq<char>, Seq<char>)>
    decreases fs.len() - i,
{
    if i < 0 || i >= fs.len() {
        acc
    } else {
        spec_gather_templates_from(
            spec_add_variants_templates(acc, base, spec_variants_of(fs[i].1), 0),
            base,
            fs,
            i + 1,
        )
    }
}

/// The mapping from every template path written in the document to that
/// path resolved against the base directory.
pub open spec fn spec_gather_templates(
    fs: Seq<(Seq<char>, FunctionConfigV)>,
    base: Seq<char>,
) -> Seq<(Seq<char>, Seq<char>)> {
    spec_gather_templates_from(Seq::empty(), base, fs, 0)
}

/// What loading a parsed document yields: the declaration model read
/// strictly, every schema and template reference resolved against the base
/// directory, and the registry validated, each stage aborting the load with
/// its first error.
pub open spec fn spec_load_from_table(
    doc: RawVal,
    base: Seq<char>,
    schemas: Seq<(Seq<char>, SchemaOutcomeV)>,
    tsrc: Seq<(Seq<char>, crate::template::TemplateOutcomeV)>,
) -> Result<ConfigV, ErrorV> {
    match spec_expect_table(doc, ""@) {
        Err(e) => Err(ErrorV::Config { message: crate::de::spec_render(e) }),
        Ok(t) => match spec_deser_config(t) {
            Err(e) => Err(ErrorV::Config { message: crate::de::spec_render(e) }),
            Ok(u) => {
                let gateway = match u.gateway {
                    Some(g) => g,
                    None => spec_gateway_default(),
                };
                match spec_load_functions_from(u.functions, schemas, base, 0) {
                    Err(e) => Err(e),
                    Ok(functions) => match spec_load_tools_from(u.tools, schemas, base, 0) {
                        Err(e) => Err(e),
                        Ok(tools) => {
                            let mapping = spec_gather_templates(functions, base);
                            match crate::template::spec_initialize_templates_from(mapping, tsrc, 0) {
                                Err(e) => Err(e),
                                Ok(templates) => {
                                    let cv = ConfigV {
                                        gateway,
                                        models: u.models,
                                        functions,
                                        metrics: u.metrics,
                                        tools,
                                        templates,
                                    };
                                    match crate::validation::spec_validate(cv) {
                                        Some(e) => Err(e),
                                        None => Ok(cv),
                                    }
                                },
                            }
                        },
                    },
                }
            },
        },
    }
}

/// Add one optional template path to the mapping.
fn add_template(acc: &mut Vec<(String, String)>, base: &str, p: &Option<String>)
    ensures
        final(acc).deep_view() == spec_add_template(old(acc).deep_view(), base@, p.deep_view()),
{
    match p {
        None => {},
        Some(p) => {
            let ghost before = acc.deep_view();
            match assoc_find(acc, p.as_str()) {
                Some(_) => {},
                None => {
                    let joined = join_path(base, p.as_str());
                    let ghost jv = joined@;
                    acc.push((p.clone(), joined));
                    proof {
                        assert(acc.deep_view() =~= before.push((p@, jv)));
                    }
                },
            }
        },
    }
}

impl Config {
    /// The mapping from each template path referenced by any variant, as
    /// written in the document (the template's lookup name), to the same
    /// path resolved against `base_path`.
    pub fn get_templates(&self, base_path: &str) -> (r: Vec<(String, String)>)
        ensures
            r.deep_view() == spec_gather_templates(self.functions.deep_view(), base_path@),
    {
        let ghost fsv = self.functions.deep_view();
        let mut acc: Vec<(String, String)> = Vec::new();
        proof {
            assert(acc.deep_view() =~= Seq::<(Seq<char>, Seq<char>)>::empty());
        }
        let mut i: usize = 0;
        while i < self.functions.len()
            invariant
                0 <= i <= self.functions.len(),
                fsv == self.functions.deep_view(),
                fsv.len() == self.functions.len(),
                forall|j: int| 0 <= j < self.functions.len() ==> fsv[j] == (
                    self.functions@[j].0@,
                    self.functions@[j].1.deep_view(),
                ),
                spec_gather_templates(fsv, base_path@) == spec_gather_templates_from(
                    acc.deep_view(),
                    base_path@,
                    fsv,
                    i as int,
                ),
            decreases self.functions.len() - i,
        {
            let f = &self.functions[i].1;
            let vs = f.variants();
            let ghost vsv = vs.deep_view();
            proof {
                assert(vsv == spec_variants_of(fsv[i as int].1));
            }
            let mut k: usize = 0;
            while k < vs.len()
                invariant
                    0 <= k <= vs.len(),
                    vsv == vs.deep_view(),
                    vsv.len() == vs.len(),
                    forall|j: int| 0 <= j < vs.len() ==> vsv[j] == (
                        vs@[j].0@,
                        vs@[j].1.deep_view(),
                    ),
                    spec_gather_templates(fsv, base_path@) == spec_gather_templates_from(
                        spec_add_variants_templates(acc.deep_view(), base_path@, vsv, k as int),
                        base_path@,
                        fsv,
                        i + 1 as int,
                    ),
                decreases vs.len() - k,
            {
                let v = &vs[k].1;
                match v {
                    VariantConfig::ChatCompletion(c) => {
                        add_template(&mut acc, base_path, &c.system_template);
                        add_template(&mut acc, base_path, &c.user_template);
                        add_template(&mut acc, base_path, &c.assistant_template);
                    },
                }
                k += 1;
            }
            i += 1;
        }
        acc
    }

    /// Load a parsed document into the registry: read the declaration
    /// model strictly, resolve every schema and template reference against
    /// `base_path` using what the two collaborators reported, and validate
    /// the result; the first failure of any stage aborts the load.
    pub fn load_from_table(
        doc: &RawValue,
        base_path: &str,
        schemas: &SchemaSource,
        templates: &TemplateSource,
    ) -> (r: Result<Config, Error>)
        ensures
            res_dv(r) == spec_load_from_table(
                doc.dv(),
                base_path@,
                schemas.deep_view(),
                templates.deep_view(),
            ),
    {
        let t = match expect_table(doc, "") {
            Err(e) => {
                return Err(render(&e));
            },
            Ok(t) => t,
        };
        let u = match UninitializedConfig::deser(t) {
            Err(e) => {
                return Err(render(&e));
            },
            Ok(u) => u,
        };
        let UninitializedConfig { gateway, models, functions, metrics, tools } = u;
        let gateway = match gateway {
            Some(g) => g,
            None => GatewayConfig::default(),
        };
        let functions = match load_functions(functions, base_path, schemas) {
            Err(e) => {
                return Err(e);
            },
            Ok(fs) => fs,
        };
        let tools = match load_tools(tools, base_path, schemas) {
            Err(e) => {
                return Err(e);
            },
            Ok(ts) => ts,
        };
        let mut config = Config {
            gateway,
            models,
            functions,
            metrics,
            tools,
            templates: TemplateConfig::new(),
        };
        let template_paths = config.get_templates(base_path);
        config.templates = match TemplateConfig::initialize(&template_paths, templates) {
            Err(e) => {
                return Err(e);
            },
            Ok(reg) => reg,
        };
        match config.validate() {
            Err(e) => {
                return Err(e);
            },
            Ok(_) => {},
        }
        Ok(config)
    }

    /// Get a function by name.
    pub fn get_function<'a>(&'a self, function_name: &str) -> (r: Result<&'a FunctionConfig, Error>)
        ensures
            match r {
                Ok(f) => find(self.functions.deep_view(), function_name@) == Some(f.deep_view()),
                Err(e) => find(self.functions.deep_view(), function_name@) is None && e.deep_view()
                    == (ErrorV::UnknownFunction { name: function_name@ }),
            },
    {
        match assoc_find(&self.functions, function_name) {
            Some(f) => Ok(f),
            None => Err(Error::UnknownFunction { name: function_name.to_owned() }),
        }
    }

    /// Get a metric by name.
    pub fn get_metric<'a>(&'a self, metric_name: &str) -> (r: Result<&'a MetricConfig, Error>)
        ensures
            match r {
                Ok(m) => find(self.metrics.deep_view(), metric_name@) == Some(m.deep_view()),
                Err(e) => find(self.metrics.deep_view(), metric_name@) is None && e.deep_view()
                    == (ErrorV::UnknownMetric { name: metric_name@ }),
            },
    {
        match assoc_find(&self.metrics, metric_name) {
            Some(m) => Ok(m),
            None => Err(Error::UnknownMetric { name: metric_name.to_owned() }),
        }
    }

    /// Get a tool by name.
    pub fn get_tool<'a>(&'a self, tool_name: &str) -> (r: Result<&'a StaticToolConfig, Error>)
        ensures
            match r {
                Ok(t) => find(self.tools.deep_view(), tool_name@) == Some(t.deep_view()),
                Err(e) => find(self.tools.deep_view(), tool_name@) is None && e.deep_view()
                    == (ErrorV::UnknownTool { name: tool_name@ }),
            },
    {
        match assoc_find(&self.tools, tool_name) {
            Some(t) => Ok(t),
            None => Err(Error::UnknownTool { name: tool_name.to_owned() }),
        }
    }

    /// Get a model by name.
    pub fn get_model<'a>(&'a self, model_name: &str) -> (r: Result<&'a ModelConfig, Error>)
        ensures
            match r {
                Ok(m) => find(self.models.deep_view(), model_name@) == Some(m.deep_view()),
                Err(e) => find(self.models.deep_view(), model_name@) is None && e.deep_view()
                    == (ErrorV::UnknownModel { name: model_name@ }),
            },
    {
        match assoc_find(&self.models, model_name) {
            Some(m) => Ok(m),
            None => Err(Error::UnknownModel { name: model_name.to_owned() }),
        }
    }
}

} // verus!
