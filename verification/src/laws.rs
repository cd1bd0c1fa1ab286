//! What a successful load guarantees, stated and proved once over the spec
//! of the pipeline: the model invariants and weight bounds the validator
//! enforces, that no declared entity is silently dropped, and that loading
//! is a function of the document and the collaborators' reports alone.

use vstd::prelude::*;

use crate::config::{
    spec_deser_config, spec_deser_functions_from, spec_deser_metrics_from, spec_deser_models_from,
    spec_deser_tools_from, spec_load_from_table, spec_load_functions_from, spec_load_tools_from,
    ConfigV,
};
use crate::de::{alist_get, find, find_from};
use crate::error::ErrorV;
use crate::function::spec_variants_of;
use crate::model::ModelConfigV;
use crate::raw::RawVal;
use crate::schema::SchemaOutcomeV;
use crate::template::TemplateOutcomeV;
use crate::validation::{
    spec_check_providers, spec_check_routing, spec_check_tools, spec_validate,
    spec_validate_function, spec_validate_functions, spec_validate_metrics, spec_validate_models,
    spec_validate_model, spec_validate_variant_shape, spec_validate_variant_shapes,
    spec_reserved_metric_name,
};
use crate::variant::{f64_bits_ge_zero, VariantConfigV};

verus! {

/// A name is bound in an association list exactly when some entry carries
/// it.
pub proof fn lemma_find_some_iff_exists<V>(t: Seq<(Seq<char>, V)>, k: Seq<char>, i: int)
    requires
        0 <= i <= t.len(),
    ensures
        find_from(t, k, i) is Some <==> exists|j: int| i <= j < t.len() && t[j].0 == k,
    decreases t.len() - i,
{
    if i < t.len() {
        lemma_find_some_iff_exists(t, k, i + 1);
        if t[i].0 == k {
            assert(t[i].0 == k);
        }
    }
}

/// A model the validator passed has a non-empty routing list whose entries
/// are pairwise distinct and are exactly the provider names.
pub open spec fn model_routing_ok(m: ModelConfigV) -> bool {
    &&& m.routing.len() > 0
    &&& forall|j: int, k: int|
        0 <= j < k < m.routing.len() ==> m.routing[j] != m.routing[k]
    &&& forall|p: Seq<char>| #[trigger] m.routing.contains(p) <==> find(m.providers, p) is Some
}

proof fn lemma_check_routing_none(name: Seq<char>, m: ModelConfigV, i: int)
    requires
        0 <= i <= m.routing.len(),
        spec_check_routing(name, m, i) is None,
    ensures
        forall|j: int|
            i <= j < m.routing.len() ==> !m.routing.subrange(0, j).contains(#[trigger] m.routing[j])
                && find(m.providers, m.routing[j]) is Some,
    decreases m.routing.len() - i,
{
    if i < m.routing.len() {
        lemma_check_routing_none(name, m, i + 1);
    }
}

proof fn lemma_check_providers_none(name: Seq<char>, m: ModelConfigV, i: int)
    requires
        0 <= i <= m.providers.len(),
        spec_check_providers(name, m, i) is None,
    ensures
        forall|j: int| i <= j < m.providers.len() ==> m.routing.contains(#[trigger] m.providers[j].0),
    decreases m.providers.len() - i,
{
    if i < m.providers.len() {
        lemma_check_providers_none(name, m, i + 1);
    }
}

/// One validated model satisfies `model_routing_ok`.
proof fn lemma_validate_model_ok(name: Seq<char>, m: ModelConfigV)
    requires
        spec_validate_model(name, m) is None,
    ensures
        model_routing_ok(m),
{
    lemma_check_routing_none(name, m, 0);
    lemma_check_providers_none(name, m, 0);
    assert forall|j: int, k: int| 0 <= j < k < m.routing.len() implies m.routing[j]
        != m.routing[k] by {
        if m.routing[j] == m.routing[k] {
            assert(m.routing.subrange(0, k)[j] == m.routing[k]);
            assert(m.routing.subrange(0, k).contains(m.routing[k]));
        }
    }
    assert forall|p: Seq<char>| #[trigger] m.routing.contains(p) implies find(
        m.providers,
        p,
    ) is Some by {
        let j = choose|j: int| 0 <= j < m.routing.len() && m.routing[j] == p;
        assert(find(m.providers, m.routing[j]) is Some);
    }
    assert forall|p: Seq<char>| find(m.providers, p) is Some implies #[trigger] m.routing.contains(
        p,
    ) by {
        lemma_find_some_iff_exists(m.providers, p, 0);
        let j = choose|j: int| 0 <= j < m.providers.len() && m.providers[j].0 == p;
        assert(m.routing.contains(m.providers[j].0));
    }
}

proof fn lemma_validate_models_none(models: Seq<(Seq<char>, ModelConfigV)>, i: int)
    requires
        0 <= i <= models.len(),
        spec_validate_models(models, i) is None,
    ensures
        forall|j: int| i <= j < models.len() ==> spec_validate_model(
            models[j].0,
            #[trigger] models[j].1,
        ) is None,
    decreases models.len() - i,
{
    if i < models.len() {
        lemma_validate_models_none(models, i + 1);
    }
}

/// Validation passes only if every model's routing list is non-empty, free
/// of duplicates, and names exactly the keys of its providers map.
pub proof fn lemma_validate_models_routing(c: ConfigV)
    requires
        spec_validate(c) is None,
    ensures
        forall|i: int| 0 <= i < c.models.len() ==> model_routing_ok(#[trigger] c.models[i].1),
{
    lemma_validate_models_none(c.models, 0);
    assert forall|i: int| 0 <= i < c.models.len() implies model_routing_ok(
        #[trigger] c.models[i].1,
    ) by {
        lemma_validate_model_ok(c.models[i].0, c.models[i].1);
    }
}

proof fn lemma_validate_variant_shapes_none(
    c: ConfigV,
    fname: Seq<char>,
    f: crate::function::FunctionConfigV,
    vs: Seq<(Seq<char>, VariantConfigV)>,
    i: int,
)
    requires
        0 <= i <= vs.len(),
        spec_validate_variant_shapes(c, fname, f, vs, i) is None,
    ensures
        forall|j: int| i <= j < vs.len() ==> spec_validate_variant_shape(
            c,
            fname,
            f,
            vs[j].0,
            #[trigger] vs[j].1,
        ) is None,
    decreases vs.len() - i,
{
    if i < vs.len() {
        lemma_validate_variant_shapes_none(c, fname, f, vs, i + 1);
    }
}

proof fn lemma_validate_functions_none(c: ConfigV, fs: Seq<(Seq<char>, crate::function::FunctionConfigV)>, i: int)
    requires
        0 <= i <= fs.len(),
        spec_validate_functions(c, fs, i) is None,
    ensures
        forall|j: int| i <= j < fs.len() ==> spec_validate_function(
            c,
            fs[j].0,
            #[trigger] fs[j].1,
        ) is None,
    decreases fs.len() - i,
{
    if i < fs.len() {
        lemma_validate_functions_none(c, fs, i + 1);
    }
}

/// Validation passes only if every variant of every function declares a
/// weight of at least zero (in particular, a NaN weight does not validate).
pub proof fn lemma_validate_weights(c: ConfigV)
    requires
        spec_validate(c) is None,
    ensures
        forall|i: int, j: int|
            0 <= i < c.functions.len() && 0 <= j < spec_variants_of(c.functions[i].1).len()
                ==> match #[trigger] spec_variants_of(#[trigger] c.functions[i].1)[j].1 {
                VariantConfigV::ChatCompletion(cc) => f64_bits_ge_zero(cc.weight_bits),
            },
{
    lemma_validate_functions_none(c, c.functions, 0);
    assert forall|i: int, j: int|
        0 <= i < c.functions.len() && 0 <= j < spec_variants_of(c.functions[i].1).len() implies match
        #[trigger] spec_variants_of(#[trigger] c.functions[i].1)[j].1 {
        VariantConfigV::ChatCompletion(cc) => f64_bits_ge_zero(cc.weight_bits),
    } by {
        let vs = spec_variants_of(c.functions[i].1);
        lemma_validate_variant_shapes_none(c, c.functions[i].0, c.functions[i].1, vs, 0);
        assert(spec_validate_variant_shape(c, c.functions[i].0, c.functions[i].1, vs[j].0, vs[j].1)
            is None);
    }
}

/// Validation passes only if every tool a chat function references is bound
/// in the tool registry, whether or not the function has variants.
pub proof fn lemma_validate_tool_refs(c: ConfigV)
    requires
        spec_validate(c) is None,
    ensures
        forall|i: int|
            0 <= i < c.functions.len() ==> match #[trigger] c.functions[i].1 {
                crate::function::FunctionConfigV::Chat(fc) => forall|j: int|
                    0 <= j < fc.tools.len() ==> find(c.tools, #[trigger] fc.tools[j]) is Some,
                crate::function::FunctionConfigV::Json(_) => true,
            },
{
    lemma_validate_functions_none(c, c.functions, 0);
    assert forall|i: int| 0 <= i < c.functions.len() implies match #[trigger] c.functions[i].1 {
        crate::function::FunctionConfigV::Chat(fc) => forall|j: int|
            0 <= j < fc.tools.len() ==> find(c.tools, #[trigger] fc.tools[j]) is Some,
        crate::function::FunctionConfigV::Json(_) => true,
    } by {
        if let crate::function::FunctionConfigV::Chat(fc) = c.functions[i].1 {
            lemma_check_tools_none(c, fc.tools, c.functions[i].0, 0);
        }
    }
}

proof fn lemma_check_tools_none(c: ConfigV, wanted: Seq<Seq<char>>, fname: Seq<char>, i: int)
    requires
        0 <= i <= wanted.len(),
        spec_check_tools(c.tools, wanted, fname, i) is None,
    ensures
        forall|j: int| i <= j < wanted.len() ==> find(c.tools, #[trigger] wanted[j]) is Some,
    decreases wanted.len() - i,
{
    if i < wanted.len() {
        lemma_check_tools_none(c, wanted, fname, i + 1);
    }
}

/// Validation passes only if no metric bears a reserved name.
pub proof fn lemma_validate_metric_names(c: ConfigV)
    requires
        spec_validate(c) is None,
    ensures
        forall|i: int| 0 <= i < c.metrics.len() ==> !spec_reserved_metric_name(
            #[trigger] c.metrics[i].0,
        ),
{
    lemma_validate_metrics_none(c.metrics, 0);
}

proof fn lemma_validate_metrics_none(ms: Seq<(Seq<char>, crate::metric::MetricConfig)>, i: int)
    requires
        0 <= i <= ms.len(),
        spec_validate_metrics(ms, i) is None,
    ensures
        forall|j: int| i <= j < ms.len() ==> !spec_reserved_metric_name(#[trigger] ms[j].0),
    decreases ms.len() - i,
{
    if i < ms.len() {
        lemma_validate_metrics_none(ms, i + 1);
    }
}

proof fn lemma_deser_models_keys(t: Seq<(Seq<char>, RawVal)>, i: int)
    requires
        0 <= i <= t.len(),
        spec_deser_models_from(t, i) is Ok,
    ensures
        spec_deser_models_from(t, i)->Ok_0.len() == t.len() - i,
        forall|j: int|
            0 <= j < t.len() - i ==> (#[trigger] spec_deser_models_from(t, i)->Ok_0[j]).0 == t[i
                + j].0,
    decreases t.len() - i,
{
    if i < t.len() {
        lemma_deser_models_keys(t, i + 1);
    }
}

proof fn lemma_deser_functions_keys(t: Seq<(Seq<char>, RawVal)>, i: int)
    requires
        0 <= i <= t.len(),
        spec_deser_functions_from(t, i) is Ok,
    ensures
        spec_deser_functions_from(t, i)->Ok_0.len() == t.len() - i,
        forall|j: int|
            0 <= j < t.len() - i ==> (#[trigger] spec_deser_functions_from(t, i)->Ok_0[j]).0 == t[i
                + j].0,
    decreases t.len() - i,
{
    if i < t.len() {
        lemma_deser_functions_keys(t, i + 1);
    }
}

proof fn lemma_deser_metrics_keys(t: Seq<(Seq<char>, RawVal)>, i: int)
    requires
        0 <= i <= t.len(),
        spec_deser_metrics_from(t, i) is Ok,
    ensures
        spec_deser_metrics_from(t, i)->Ok_0.len() == t.len() - i,
        forall|j: int|
            0 <= j < t.len() - i ==> (#[trigger] spec_deser_metrics_from(t, i)->Ok_0[j]).0 == t[i
                + j].0,
    decreases t.len() - i,
{
    if i < t.len() {
        lemma_deser_metrics_keys(t, i + 1);
    }
}

proof fn lemma_deser_tools_keys(t: Seq<(Seq<char>, RawVal)>, i: int)
    requires
        0 <= i <= t.len(),
        spec_deser_tools_from(t, i) is Ok,
    ensures
        spec_deser_tools_from(t, i)->Ok_0.len() == t.len() - i,
        forall|j: int|
            0 <= j < t.len() - i ==> (#[trigger] spec_deser_tools_from(t, i)->Ok_0[j]).0 == t[i
                + j].0,
    decreases t.len() - i,
{
    if i < t.len() {
        lemma_deser_tools_keys(t, i + 1);
    }
}

proof fn lemma_load_functions_keys(
    fs: Seq<(Seq<char>, crate::function::UninitializedFunctionConfigV)>,
    src: Seq<(Seq<char>, SchemaOutcomeV)>,
    base: Seq<char>,
    i: int,
)
    requires
        0 <= i <= fs.len(),
        spec_load_functions_from(fs, src, base, i) is Ok,
    ensures
        spec_load_functions_from(fs, src, base, i)->Ok_0.len() == fs.len() - i,
        forall|j: int|
            0 <= j < fs.len() - i ==> (#[trigger] spec_load_functions_from(
                fs,
                src,
                base,
                i,
            )->Ok_0[j]).0 == fs[i + j].0,
    decreases fs.len() - i,
{
    if i < fs.len() {
        lemma_load_functions_keys(fs, src, base, i + 1);
    }
}

proof fn lemma_load_tools_keys(
    ts: Seq<(Seq<char>, crate::tool::UninitializedToolConfigV)>,
    src: Seq<(Seq<char>, SchemaOutcomeV)>,
    base: Seq<char>,
    i: int,
)
    requires
        0 <= i <= ts.len(),
        spec_load_tools_from(ts, src, base, i) is Ok,
    ensures
        spec_load_tools_from(ts, src, base, i)->Ok_0.len() == ts.len() - i,
        forall|j: int|
            0 <= j < ts.len() - i ==> (#[trigger] spec_load_tools_from(ts, src, base, i)->Ok_0[j]).0
                == ts[i + j].0,
    decreases ts.len() - i,
{
    if i < ts.len() {
        lemma_load_tools_keys(ts, src, base, i + 1);
    }
}

/// Whether the document's section named `section` holds an entry named `k`.
pub open spec fn doc_declares(t: Seq<(Seq<char>, RawVal)>, section: Seq<char>, k: Seq<char>) -> bool {
    match alist_get(t, section) {
        Some(RawVal::Table(sub)) => alist_get(sub, k) is Some,
        _ => false,
    }
}

proof fn lemma_keys_to_find<V>(t: Seq<(Seq<char>, V)>, keys: Seq<(Seq<char>, RawVal)>, k: Seq<char>)
    requires
        t.len() == keys.len(),
        forall|j: int| 0 <= j < t.len() ==> (#[trigger] t[j]).0 == keys[j].0,
        alist_get(keys, k) is Some,
    ensures
        find(t, k) is Some,
{
    lemma_find_some_iff_exists(keys, k, 0);
    let j = choose|j: int| 0 <= j < keys.len() && keys[j].0 == k;
    assert(t[j].0 == k);
    lemma_find_some_iff_exists(t, k, 0);
}

/// Round trip: a document that loads never drops an entity.  Every model,
/// function, metric and tool name declared in the document is bound in the
/// registry, so looking any of them up succeeds (`get_model`,
/// `get_function`, `get_metric` and `get_tool` return `Ok` exactly when the
/// name is bound).
pub proof fn lemma_load_round_trip(
    doc: RawVal,
    base: Seq<char>,
    schemas: Seq<(Seq<char>, SchemaOutcomeV)>,
    tsrc: Seq<(Seq<char>, TemplateOutcomeV)>,
    c: ConfigV,
)
    requires
        spec_load_from_table(doc, base, schemas, tsrc) == Ok::<ConfigV, ErrorV>(c),
    ensures
        doc matches RawVal::Table(t) ==> forall|k: Seq<char>|
            {
                &&& #[trigger] doc_declares(t, "models"@, k) ==> find(c.models, k) is Some
                &&& doc_declares(t, "functions"@, k) ==> find(c.functions, k) is Some
                &&& doc_declares(t, "metrics"@, k) ==> find(c.metrics, k) is Some
                &&& doc_declares(t, "tools"@, k) ==> find(c.tools, k) is Some
            },
{
    if let RawVal::Table(t) = doc {
        let u = spec_deser_config(t)->Ok_0;
        assert forall|k: Seq<char>|
            {
                &&& #[trigger] doc_declares(t, "models"@, k) ==> find(c.models, k) is Some
                &&& doc_declares(t, "functions"@, k) ==> find(c.functions, k) is Some
                &&& doc_declares(t, "metrics"@, k) ==> find(c.metrics, k) is Some
                &&& doc_declares(t, "tools"@, k) ==> find(c.tools, k) is Some
            } by {
            if doc_declares(t, "models"@, k) {
                let sub = alist_get(t, "models"@)->Some_0->Table_0;
                assert(spec_deser_models_from(sub, 0) == Ok::<_, crate::de::DeserErrorV>(u.models));
                assert(c.models == u.models);
                lemma_deser_models_keys(sub, 0);
                lemma_keys_to_find(c.models, sub, k);
            }
            if doc_declares(t, "functions"@, k) {
                let sub = alist_get(t, "functions"@)->Some_0->Table_0;
                assert(spec_deser_functions_from(sub, 0) == Ok::<_, crate::de::DeserErrorV>(
                    u.functions,
                ));
                assert(spec_load_functions_from(u.functions, schemas, base, 0) == Ok::<_, ErrorV>(
                    c.functions,
                ));
                lemma_deser_functions_keys(sub, 0);
                lemma_load_functions_keys(u.functions, schemas, base, 0);
                lemma_find_some_iff_exists(sub, k, 0);
                let j = choose|j: int| 0 <= j < sub.len() && sub[j].0 == k;
                assert(u.functions[j].0 == sub[j].0);
                assert(c.functions[j].0 == u.functions[j].0);
                lemma_find_some_iff_exists(c.functions, k, 0);
            }
            if doc_declares(t, "metrics"@, k) {
                let sub = alist_get(t, "metrics"@)->Some_0->Table_0;
                assert(spec_deser_metrics_from(sub, 0) == Ok::<_, crate::de::DeserErrorV>(
                    u.metrics,
                ));
                assert(c.metrics == u.metrics);
                lemma_deser_metrics_keys(sub, 0);
                lemma_keys_to_find(c.metrics, sub, k);
            }
            if doc_declares(t, "tools"@, k) {
                let sub = alist_get(t, "tools"@)->Some_0->Table_0;
                assert(spec_deser_tools_from(sub, 0) == Ok::<_, crate::de::DeserErrorV>(u.tools));
                assert(spec_load_tools_from(u.tools, schemas, base, 0) == Ok::<_, ErrorV>(c.tools));
                lemma_deser_tools_keys(sub, 0);
                lemma_load_tools_keys(u.tools, schemas, base, 0);
                lemma_find_some_iff_exists(sub, k, 0);
                let j = choose|j: int| 0 <= j < sub.len() && sub[j].0 == k;
                assert(u.tools[j].0 == sub[j].0);
                assert(c.tools[j].0 == u.tools[j].0);
                lemma_find_some_iff_exists(c.tools, k, 0);
            }
        }
    }
}

/// Idempotence: loading is a function of the document, the base directory
/// and the collaborators' reports alone, so resolving the same unchanged
/// document twice yields registries with identical entity sets and field
/// values.  `Config::load_from_table` ensures its result equals
/// `spec_load_from_table` of its inputs, so two calls on equal inputs agree;
/// and since `parse_document` pins the parsed tree to `toml_doc_of` of the
/// text, the guarantee reaches back to the raw document text.
pub proof fn lemma_load_deterministic(
    doc: RawVal,
    base: Seq<char>,
    schemas: Seq<(Seq<char>, SchemaOutcomeV)>,
    tsrc: Seq<(Seq<char>, TemplateOutcomeV)>,
    c1: ConfigV,
    c2: ConfigV,
)
    requires
        spec_load_from_table(doc, base, schemas, tsrc) == Ok::<ConfigV, ErrorV>(c1),
        spec_load_from_table(doc, base, schemas, tsrc) == Ok::<ConfigV, ErrorV>(c2),
    ensures
        c1 == c2,
{
}

/// A document without a `[metrics]` section that loads yields an empty
/// metric set, while `models` and `functions` sections can never be absent
/// from a document that loads.
pub proof fn lemma_section_boundaries(
    doc: RawVal,
    base: Seq<char>,
    schemas: Seq<(Seq<char>, SchemaOutcomeV)>,
    tsrc: Seq<(Seq<char>, TemplateOutcomeV)>,
    c: ConfigV,
)
    requires
        spec_load_from_table(doc, base, schemas, tsrc) == Ok::<ConfigV, ErrorV>(c),
    ensures
        doc matches RawVal::Table(t) && alist_get(t, "metrics"@) is None ==> c.metrics
            == Seq::<(Seq<char>, crate::metric::MetricConfig)>::empty(),
        doc matches RawVal::Table(t) ==> alist_get(t, "models"@) is Some && alist_get(
            t,
            "functions"@,
        ) is Some,
{
}

} // verus!
