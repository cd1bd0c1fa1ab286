//! The cross-referential validator: the invariants no single entity's own
//! deserialization can check, enforced over the fully resolved registry,
//! failing fast on the first violation.

use vstd::prelude::*;
use vstd::string::StringExecFns;

use crate::config::{Config, ConfigV};
use crate::de::find;
use crate::error::{Error, ErrorV};
use crate::function::{FunctionConfig, FunctionConfigV, spec_variants_of};
use crate::model::{ModelConfig, ModelConfigV};
use crate::schema::JsonSchema;
use crate::template::{spec_template_needs_variables, TemplateConfig, TemplateEntryV};
use crate::text::str_eq;
use crate::tool::StaticToolConfigV;
use crate::variant::{f64_bits_ge_zero, weight_ge_zero, ChatCompletionConfigV, VariantConfig, VariantConfigV};

verus! {

pub open spec fn msg_routing_empty(name: Seq<char>) -> Seq<char> {
    "Invalid Config: `models."@ + name + "`: `routing` must not be empty"@
}

pub open spec fn msg_duplicate_routing(name: Seq<char>, provider: Seq<char>) -> Seq<char> {
    "Invalid Config: `models."@ + name + ".routing`: duplicate entry `"@ + provider + "`"@
}

pub open spec fn msg_routing_not_in_providers(name: Seq<char>, provider: Seq<char>) -> Seq<char> {
    "Invalid Config: `models."@ + name + "`: `routing` contains entry `"@ + provider
        + "` that does not exist in `providers`"@
}

pub open spec fn msg_orphan_provider(name: Seq<char>, provider: Seq<char>) -> Seq<char> {
    "Invalid Config: `models."@ + name + "`: Provider `"@ + provider
        + "` is not listed in `routing`"@
}

pub open spec fn msg_negative_weight(fname: Seq<char>, vname: Seq<char>) -> Seq<char> {
    "Invalid Config: `functions."@ + fname + ".variants."@ + vname
        + ".weight`: must be non-negative"@
}

pub open spec fn msg_schema_required(
    fname: Seq<char>,
    vname: Seq<char>,
    schema_field: Seq<char>,
    template_field: Seq<char>,
) -> Seq<char> {
    "Invalid Config: `functions."@ + fname + ".variants."@ + vname + "`: `"@ + schema_field
        + "` is required when `"@ + template_field + "` is specified"@
}

pub open spec fn msg_template_required(
    fname: Seq<char>,
    vname: Seq<char>,
    template_field: Seq<char>,
    schema_field: Seq<char>,
) -> Seq<char> {
    "Invalid Config: `functions."@ + fname + ".variants."@ + vname + "`: `"@ + template_field
        + "` is required when `"@ + schema_field + "` is specified"@
}

pub open spec fn msg_missing_tool(fname: Seq<char>, tool: Seq<char>) -> Seq<char> {
    "Invalid Config: `functions."@ + fname + ".tools`: tool `"@ + tool
        + "` is not present in the config"@
}

pub open spec fn msg_invalid_model(fname: Seq<char>, vname: Seq<char>) -> Seq<char> {
    "Invalid Config: `functions."@ + fname + ".variants."@ + vname
        + "`: `model` must be a valid model name"@
}

pub open spec fn msg_reserved_metric(name: Seq<char>) -> Seq<char> {
    "Invalid Config: Metric name '"@ + name + "' is reserved and cannot be used"@
}

/// The routing walk of one model, from entry `i` on: a duplicate entry or
/// one that names no provider stops it.
pub open spec fn spec_check_routing(name: Seq<char>, m: ModelConfigV, i: int) -> Option<ErrorV>
    decreases m.routing.len() - i,
{
    if i < 0 || i >= m.routing.len() {
        None
    } else if m.routing.subrange(0, i).contains(m.routing[i]) {
        Some(ErrorV::Config { message: msg_duplicate_routing(name, m.routing[i]) })
    } else if find(m.providers, m.routing[i]) is None {
        Some(ErrorV::Config { message: msg_routing_not_in_providers(name, m.routing[i]) })
    } else {
        spec_check_routing(name, m, i + 1)
    }
}

/// The provider walk of one model, from entry `i` on: a provider that the
/// routing list never names is dead configuration and stops it.
pub open spec fn spec_check_providers(name: Seq<char>, m: ModelConfigV, i: int) -> Option<ErrorV>
    decreases m.providers.len() - i,
{
    if i < 0 || i >= m.providers.len() {
        None
    } else if !m.routing.contains(m.providers[i].0) {
        Some(ErrorV::Config { message: msg_orphan_provider(name, m.providers[i].0) })
    } else {
        spec_check_providers(name, m, i + 1)
    }
}

/// One model's invariants: routing non-empty, entries unique and backed by
/// providers, and no provider outside the routing list.
pub open spec fn spec_validate_model(name: Seq<char>, m: ModelConfigV) -> Option<ErrorV> {
    if m.routing.len() == 0 {
        Some(ErrorV::Config { message: msg_routing_empty(name) })
    } else {
        match spec_check_routing(name, m, 0) {
            Some(e) => Some(e),
            None => spec_check_providers(name, m, 0),
        }
    }
}

pub open spec fn spec_validate_models(models: Seq<(Seq<char>, ModelConfigV)>, i: int) -> Option<ErrorV>
    decreases models.len() - i,
{
    if i < 0 || i >= models.len() {
        None
    } else {
        match spec_validate_model(models[i].0, models[i].1) {
            Some(e) => Some(e),
            None => spec_validate_models(models, i + 1),
        }
    }
}

/// One message role of one variant: a template without a schema is allowed
/// only if the template needs no variables; a schema without a template is
/// unused and always an error.
pub open spec fn spec_check_role(
    templates: Seq<(Seq<char>, TemplateEntryV)>,
    schema_present: bool,
    template: Option<Seq<char>>,
    fname: Seq<char>,
    vname: Seq<char>,
    schema_field: Seq<char>,
    template_field: Seq<char>,
) -> Option<ErrorV> {
    match template {
        Some(tp) => if !schema_present {
            match spec_template_needs_variables(templates, tp) {
                Err(e) => Some(e),
                Ok(true) => Some(ErrorV::Config {
                    message: msg_schema_required(fname, vname, schema_field, template_field),
                }),
                Ok(false) => None,
            }
        } else {
            None
        },
        None => if schema_present {
            Some(ErrorV::Config {
                message: msg_template_required(fname, vname, template_field, schema_field),
            })
        } else {
            None
        },
    }
}

/// The tool references of a chat function, from entry `i` on: each must
/// name a declared tool.
pub open spec fn spec_check_tools(
    tools: Seq<(Seq<char>, StaticToolConfigV)>,
    wanted: Seq<Seq<char>>,
    fname: Seq<char>,
    i: int,
) -> Option<ErrorV>
    decreases wanted.len() - i,
{
    if i < 0 || i >= wanted.len() {
        None
    } else if find(tools, wanted[i]) is None {
        Some(ErrorV::Config { message: msg_missing_tool(fname, wanted[i]) })
    } else {
        spec_check_tools(tools, wanted, fname, i + 1)
    }
}

/// The three message roles of one variant against its function's schemas.
pub open spec fn spec_check_roles(
    c: ConfigV,
    fname: Seq<char>,
    f: FunctionConfigV,
    vname: Seq<char>,
    cc: ChatCompletionConfigV,
) -> Option<ErrorV> {
    let (sys, user, asst) = match f {
        FunctionConfigV::Chat(fc) => (
            fc.system_schema is Some,
            fc.user_schema is Some,
            fc.assistant_schema is Some,
        ),
        FunctionConfigV::Json(fj) => (
            fj.system_schema is Some,
            fj.user_schema is Some,
            fj.assistant_schema is Some,
        ),
    };
    match spec_check_role(
        c.templates,
        sys,
        cc.system_template,
        fname,
        vname,
        "system_schema"@,
        "system_template"@,
    ) {
        Some(e) => Some(e),
        None => match spec_check_role(
            c.templates,
            user,
            cc.user_template,
            fname,
            vname,
            "user_schema"@,
            "user_template"@,
        ) {
            Some(e) => Some(e),
            None => spec_check_role(
                c.templates,
                asst,
                cc.assistant_template,
                fname,
                vname,
                "assistant_schema"@,
                "assistant_template"@,
            ),
        },
    }
}

/// The shape of one variant of one function: a weight of at least zero (a
/// NaN weight is not), a variant kind matching the function kind (vacuous
/// while chat completion is the only kind a variant can have, since matching
/// on it is then total; a new kind would extend this match and revive the
/// check), and consistent schema/template pairs.
pub open spec fn spec_validate_variant_shape(
    c: ConfigV,
    fname: Seq<char>,
    f: FunctionConfigV,
    vname: Seq<char>,
    v: VariantConfigV,
) -> Option<ErrorV> {
    match v {
        VariantConfigV::ChatCompletion(cc) => if !f64_bits_ge_zero(cc.weight_bits) {
            Some(ErrorV::Config { message: msg_negative_weight(fname, vname) })
        } else {
            spec_check_roles(c, fname, f, vname, cc)
        },
    }
}

pub open spec fn spec_validate_variant_shapes(
    c: ConfigV,
    fname: Seq<char>,
    f: FunctionConfigV,
    vs: Seq<(Seq<char>, VariantConfigV)>,
    i: int,
) -> Option<ErrorV>
    decreases vs.len() - i,
{
    if i < 0 || i >= vs.len() {
        None
    } else {
        match spec_validate_variant_shape(c, fname, f, vs[i].0, vs[i].1) {
            Some(e) => Some(e),
            None => spec_validate_variant_shapes(c, fname, f, vs, i + 1),
        }
    }
}

/// The model reference of one variant: the name must be a key of the model
/// registry.
pub open spec fn spec_validate_variant_model(
    c: ConfigV,
    fname: Seq<char>,
    vname: Seq<char>,
    v: VariantConfigV,
) -> Option<ErrorV> {
    match v {
        VariantConfigV::ChatCompletion(cc) => if find(c.models, cc.model) is None {
            Some(ErrorV::Config { message: msg_invalid_model(fname, vname) })
        } else {
            None
        },
    }
}

pub open spec fn spec_validate_variant_models(
    c: ConfigV,
    fname: Seq<char>,
    vs: Seq<(Seq<char>, VariantConfigV)>,
    i: int,
) -> Option<ErrorV>
    decreases vs.len() - i,
{
    if i < 0 || i >= vs.len() {
        None
    } else {
        match spec_validate_variant_model(c, fname, vs[i].0, vs[i].1) {
            Some(e) => Some(e),
            None => spec_validate_variant_models(c, fname, vs, i + 1),
        }
    }
}

/// One function's checks, in order: each variant's shape, then — for a chat
/// function, with or without variants — every tool it references, then each
/// variant's model reference.
pub open spec fn spec_validate_function(c: ConfigV, fname: Seq<char>, f: FunctionConfigV) -> Option<ErrorV> {
    match spec_validate_variant_shapes(c, fname, f, spec_variants_of(f), 0) {
        Some(e) => Some(e),
        None => {
            let tools_r = match f {
                FunctionConfigV::Chat(fc) => spec_check_tools(c.tools, fc.tools, fname, 0),
                FunctionConfigV::Json(_) => None,
            };
            match tools_r {
                Some(e) => Some(e),
                None => spec_validate_variant_models(c, fname, spec_variants_of(f), 0),
            }
        },
    }
}

pub open spec fn spec_validate_functions(
    c: ConfigV,
    fs: Seq<(Seq<char>, FunctionConfigV)>,
    i: int,
) -> Option<ErrorV>
    decreases fs.len() - i,
{
    if i < 0 || i >= fs.len() {
        None
    } else {
        match spec_validate_function(c, fs[i].0, fs[i].1) {
            Some(e) => Some(e),
            None => spec_validate_functions(c, fs, i + 1),
        }
    }
}

/// The names the result-feedback subsystem reserves for itself.
pub open spec fn spec_reserved_metric_name(name: Seq<char>) -> bool {
    name == "comment"@ || name == "demonstration"@
}

pub open spec fn spec_validate_metrics(ms: Seq<(Seq<char>, crate::metric::MetricConfig)>, i: int) -> Option<ErrorV>
    decreases ms.len() - i,
{
    if i < 0 || i >= ms.len() {
        None
    } else if spec_reserved_metric_name(ms[i].0) {
        Some(ErrorV::Config { message: msg_reserved_metric(ms[i].0) })
    } else {
        spec_validate_metrics(ms, i + 1)
    }
}

/// The whole cross-referential check: models, then functions, then metric
/// names, first violation wins.
pub open spec fn spec_validate(c: ConfigV) -> Option<ErrorV> {
    match spec_validate_models(c.models, 0) {
        Some(e) => Some(e),
        None => match spec_validate_functions(c, c.functions, 0) {
            Some(e) => Some(e),
            None => spec_validate_metrics(c.metrics, 0),
        },
    }
}

/// Whether `x` occurs among the first `k` entries of `v`.
#[verifier::loop_isolation(false)]
fn contains_up_to(v: &Vec<String>, k: usize, x: &str) -> (r: bool)
    requires
        k <= v.len(),
    ensures
        r == v.deep_view().subrange(0, k as int).contains(x@),
{
    let ghost dv = v.deep_view();
    let mut j: usize = 0;
    while j < k
        invariant
            0 <= j <= k,
            forall|l: int| 0 <= l < j ==> dv[l] != x@,
        decreases k - j,
    {
        if str_eq(v[j].as_str(), x) {
            proof {
                assert(dv.subrange(0, k as int)[j as int] == x@);
            }
            return true;
        }
        j += 1;
    }
    proof {
        if dv.subrange(0, k as int).contains(x@) {
            let l = choose|l: int| 0 <= l < k && dv.subrange(0, k as int)[l] == x@;
            assert(dv[l] == x@);
        }
    }
    false
}

/// Whether `x` occurs anywhere in `v`.
#[verifier::loop_isolation(false)]
fn contains_str(v: &Vec<String>, x: &str) -> (r: bool)
    ensures
        r == v.deep_view().contains(x@),
{
    let ghost dv = v.deep_view();
    let mut j: usize = 0;
    while j < v.len()
        invariant
            0 <= j <= v.len(),
            forall|l: int| 0 <= l < j ==> dv[l] != x@,
        decreases v.len() - j,
    {
        if str_eq(v[j].as_str(), x) {
            proof {
                assert(dv[j as int] == x@);
            }
            return true;
        }
        j += 1;
    }
    proof {
        if dv.contains(x@) {
            let l = choose|l: int| 0 <= l < dv.len() && dv[l] == x@;
            assert(dv[l] == x@);
        }
    }
    false
}

/// Check one model's invariants, reporting the first violation with its
/// dotted path.
#[verifier::loop_isolation(false)]
fn validate_model(name: &str, m: &ModelConfig) -> (r: Result<(), Error>)
    ensures
        match r {
            Ok(_) => spec_validate_model(name@, m.deep_view()) is None,
            Err(e) => spec_validate_model(name@, m.deep_view()) == Some(e.deep_view()),
        },
{
    let ghost mv = m.deep_view();
    if m.routing.len() == 0 {
        let mut message = "Invalid Config: `models.".to_owned();
        message.append(name);
        message.append("`: `routing` must not be empty");
        return Err(Error::Config { message });
    }
    let mut i: usize = 0;
    while i < m.routing.len()
        invariant
            0 <= i <= m.routing.len(),
            spec_check_routing(name@, mv, 0) == spec_check_routing(name@, mv, i as int),
        decreases m.routing.len() - i,
    {
        let provider = &m.routing[i];
        proof {
            assert(provider@ == mv.routing[i as int]);
        }
        if contains_up_to(&m.routing, i, provider.as_str()) {
            let mut message = "Invalid Config: `models.".to_owned();
            message.append(name);
            message.append(".routing`: duplicate entry `");
            message.append(provider.as_str());
            message.append("`");
            return Err(Error::Config { message });
        }
        if crate::de::assoc_find(&m.providers, provider.as_str()).is_none() {
            let mut message = "Invalid Config: `models.".to_owned();
            message.append(name);
            message.append("`: `routing` contains entry `");
            message.append(provider.as_str());
            message.append("` that does not exist in `providers`");
            return Err(Error::Config { message });
        }
        i += 1;
    }
    let mut k: usize = 0;
    while k < m.providers.len()
        invariant
            0 <= k <= m.providers.len(),
            spec_check_routing(name@, mv, 0) is None,
            spec_check_providers(name@, mv, 0) == spec_check_providers(name@, mv, k as int),
        decreases m.providers.len() - k,
    {
        let pname = &m.providers[k].0;
        proof {
            assert(pname@ == mv.providers[k as int].0);
        }
        if !contains_str(&m.routing, pname.as_str()) {
            let mut message = "Invalid Config: `models.".to_owned();
            message.append(name);
            message.append("`: Provider `");
            message.append(pname.as_str());
            message.append("` is not listed in `routing`");
            return Err(Error::Config { message });
        }
        k += 1;
    }
    Ok(())
}

/// Check one message role of one variant.
#[verifier::loop_isolation(false)]
fn check_role(
    templates: &TemplateConfig,
    schema: &Option<JsonSchema>,
    template: &Option<String>,
    fname: &str,
    vname: &str,
    schema_field: &str,
    template_field: &str,
) -> (r: Result<(), Error>)
    ensures
        match r {
            Ok(_) => spec_check_role(
                templates.deep_view(),
                schema.deep_view() is Some,
                template.deep_view(),
                fname@,
                vname@,
                schema_field@,
                template_field@,
            ) is None,
            Err(e) => spec_check_role(
                templates.deep_view(),
                schema.deep_view() is Some,
                template.deep_view(),
                fname@,
                vname@,
                schema_field@,
                template_field@,
            ) == Some(e.deep_view()),
        },
{
    match (schema, template) {
        (Option::None, Option::Some(tp)) => {
            match templates.template_needs_variables(tp.as_str()) {
                Err(e) => Err(e),
                Ok(true) => {
                    let mut message = "Invalid Config: `functions.".to_owned();
                    message.append(fname);
                    message.append(".variants.");
                    message.append(vname);
                    message.append("`: `");
                    message.append(schema_field);
                    message.append("` is required when `");
                    message.append(template_field);
                    message.append("` is specified");
                    Err(Error::Config { message })
                },
                Ok(false) => Ok(()),
            }
        },
        (Option::Some(_), Option::None) => {
            let mut message = "Invalid Config: `functions.".to_owned();
            message.append(fname);
            message.append(".variants.");
            message.append(vname);
            message.append("`: `");
            message.append(template_field);
            message.append("` is required when `");
            message.append(schema_field);
            message.append("` is specified");
            Err(Error::Config { message })
        },
        _ => Ok(()),
    }
}

impl Config {
    /// Validate the registry: walk every model, function, variant and
    /// metric and report the first invariant violation.
    #[verifier::loop_isolation(false)]
    pub fn validate(&self) -> (r: Result<(), Error>)
        ensures
            match r {
                Ok(_) => spec_validate(self.deep_view()) is None,
                Err(e) => spec_validate(self.deep_view()) == Some(e.deep_view()),
            },
    {
        let ghost cv = self.deep_view();
        let mut i: usize = 0;
        while i < self.models.len()
            invariant
                0 <= i <= self.models.len(),
                spec_validate_models(cv.models, 0) == spec_validate_models(cv.models, i as int),
            decreases self.models.len() - i,
        {
            proof {
                assert((self.models@[i as int].0@, self.models@[i as int].1.deep_view())
                    == cv.models[i as int]);
            }
            match validate_model(self.models[i].0.as_str(), &self.models[i].1) {
                Err(e) => {
                    return Err(e);
                },
                Ok(_) => {},
            }
            i += 1;
        }
        let mut k: usize = 0;
        while k < self.functions.len()
            invariant
                0 <= k <= self.functions.len(),
                spec_validate_models(cv.models, 0) is None,
                spec_validate_functions(cv, cv.functions, 0) == spec_validate_functions(
                    cv,
                    cv.functions,
                    k as int,
                ),
            decreases self.functions.len() - k,
        {
            proof {
                assert((self.functions@[k as int].0@, self.functions@[k as int].1.deep_view())
                    == cv.functions[k as int]);
            }
            let fname = &self.functions[k].0;
            let f = &self.functions[k].1;
            match self.validate_function(fname.as_str(), f) {
                Err(e) => {
                    return Err(e);
                },
                Ok(_) => {},
            }
            k += 1;
        }
        let mut n: usize = 0;
        while n < self.metrics.len()
            invariant
                0 <= n <= self.metrics.len(),
                spec_validate_models(cv.models, 0) is None,
                spec_validate_functions(cv, cv.functions, 0) is None,
                spec_validate_metrics(cv.metrics, 0) == spec_validate_metrics(cv.metrics, n as int),
            decreases self.metrics.len() - n,
        {
            proof {
                assert(self.metrics@[n as int].0@ == cv.metrics[n as int].0);
            }
            let name = &self.metrics[n].0;
            if str_eq(name.as_str(), "comment") || str_eq(name.as_str(), "demonstration") {
                let mut message = "Invalid Config: Metric name '".to_owned();
                message.append(name.as_str());
                message.append("' is reserved and cannot be used");
                return Err(Error::Config { message });
            }
            n += 1;
        }
        Ok(())
    }

    /// Validate one function against the registry: each variant's shape,
    /// then — whether or not the function has variants — every tool it
    /// references, then each variant's model reference.
    #[verifier::loop_isolation(false)]
    fn validate_function(&self, fname: &str, f: &FunctionConfig) -> (r: Result<(), Error>)
        ensures
            match r {
                Ok(_) => spec_validate_function(self.deep_view(), fname@, f.deep_view()) is None,
                Err(e) => spec_validate_function(self.deep_view(), fname@, f.deep_view()) == Some(
                    e.deep_view(),
                ),
            },
    {
        let ghost cv = self.deep_view();
        let ghost fv = f.deep_view();
        let vs = f.variants();
        let ghost vsv = vs.deep_view();
        proof {
            assert(vsv == spec_variants_of(fv));
        }
        let mut i: usize = 0;
        while i < vs.len()
            invariant
                0 <= i <= vs.len(),
                spec_validate_variant_shapes(cv, fname@, fv, vsv, 0)
                    == spec_validate_variant_shapes(cv, fname@, fv, vsv, i as int),
            decreases vs.len() - i,
        {
            proof {
                assert((vs@[i as int].0@, vs@[i as int].1.deep_view()) == vsv[i as int]);
            }
            let vname = &vs[i].0;
            let v = &vs[i].1;
            match self.validate_variant_shape(fname, f, vname.as_str(), v) {
                Err(e) => {
                    return Err(e);
                },
                Ok(_) => {},
            }
            i += 1;
        }
        if let FunctionConfig::Chat(fc) = f {
            let ghost fcv = fc.deep_view();
            let mut j: usize = 0;
            while j < fc.tools.len()
                invariant
                    0 <= j <= fc.tools.len(),
                    spec_check_tools(cv.tools, fcv.tools, fname@, 0) == spec_check_tools(
                        cv.tools,
                        fcv.tools,
                        fname@,
                        j as int,
                    ),
                decreases fc.tools.len() - j,
            {
                proof {
                    assert(fc.tools@[j as int]@ == fcv.tools[j as int]);
                }
                let tool = &fc.tools[j];
                if crate::de::assoc_find(&self.tools, tool.as_str()).is_none() {
                    let mut message = "Invalid Config: `functions.".to_owned();
                    message.append(fname);
                    message.append(".tools`: tool `");
                    message.append(tool.as_str());
                    message.append("` is not present in the config");
                    return Err(Error::Config { message });
                }
                j += 1;
            }
        }
        let mut k: usize = 0;
        while k < vs.len()
            invariant
                0 <= k <= vs.len(),
                spec_validate_variant_models(cv, fname@, vsv, 0) == spec_validate_variant_models(
                    cv,
                    fname@,
                    vsv,
                    k as int,
                ),
            decreases vs.len() - k,
        {
            proof {
                assert((vs@[k as int].0@, vs@[k as int].1.deep_view()) == vsv[k as int]);
            }
            let vname = &vs[k].0;
            let cc = match &vs[k].1 {
                VariantConfig::ChatCompletion(cc) => cc,
            };
            if crate::de::assoc_find(&self.models, cc.model.as_str()).is_none() {
                let mut message = "Invalid Config: `functions.".to_owned();
                message.append(fname);
                message.append(".variants.");
                message.append(vname.as_str());
                message.append("`: `model` must be a valid model name");
                return Err(Error::Config { message });
            }
            k += 1;
        }
        Ok(())
    }

    /// Validate one variant's shape: its weight and its schema/template
    /// pairs.
    #[verifier::loop_isolation(false)]
    fn validate_variant_shape(&self, fname: &str, f: &FunctionConfig, vname: &str, v: &VariantConfig) -> (r: Result<(), Error>)
        ensures
            match r {
                Ok(_) => spec_validate_variant_shape(
                    self.deep_view(),
                    fname@,
                    f.deep_view(),
                    vname@,
                    v.deep_view(),
                ) is None,
                Err(e) => spec_validate_variant_shape(
                    self.deep_view(),
                    fname@,
                    f.deep_view(),
                    vname@,
                    v.deep_view(),
                ) == Some(e.deep_view()),
            },
    {
        let cc = match v {
            VariantConfig::ChatCompletion(cc) => cc,
        };
        if !weight_ge_zero(cc.weight_bits) {
            let mut message = "Invalid Config: `functions.".to_owned();
            message.append(fname);
            message.append(".variants.");
            message.append(vname);
            message.append(".weight`: must be non-negative");
            return Err(Error::Config { message });
        }
        let (system_schema, user_schema, assistant_schema) = match f {
            FunctionConfig::Chat(fc) => (&fc.system_schema, &fc.user_schema, &fc.assistant_schema),
            FunctionConfig::Json(fj) => (&fj.system_schema, &fj.user_schema, &fj.assistant_schema),
        };
        match check_role(
            &self.templates,
            system_schema,
            &cc.system_template,
            fname,
            vname,
            "system_schema",
            "system_template",
        ) {
            Err(e) => {
                return Err(e);
            },
            Ok(_) => {},
        }
        match check_role(
            &self.templates,
            user_schema,
            &cc.user_template,
            fname,
            vname,
            "user_schema",
            "user_template",
        ) {
            Err(e) => {
                return Err(e);
            },
            Ok(_) => {},
        }
        match check_role(
            &self.templates,
            assistant_schema,
            &cc.assistant_template,
            fname,
            vname,
            "assistant_schema",
            "assistant_template",
        ) {
            Err(e) => {
                return Err(e);
            },
            Ok(_) => {},
        }
        Ok(())
    }
}

} // verus!
