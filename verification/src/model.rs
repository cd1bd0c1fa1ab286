//! Model declarations: an ordered routing list of provider identifiers and
//! the connection configuration of each provider.

use vstd::prelude::*;

use crate::de::{
    alist_get, expect_string_array, expect_table, first_unknown, missing_field, missing_field_v,
    res_dv, spec_expect_str, spec_expect_string_array, spec_expect_table, expect_str, table_get,
    unknown_field, unknown_field_v, unknown_variant, unknown_variant_v, DeserError, DeserErrorV,
};
use crate::raw::{dv_entries, lemma_dv_entries, RawVal, RawValue};
use crate::text::{extend_path, spec_extend_path, str_eq};

verus! {

/// Ghost mirror of `ProviderConfig`.
#[verifier::ext_equal]
pub enum ProviderV {
    Anthropic { model_name: Seq<char> },
    Azure { deployment_id: Seq<char>, endpoint: Seq<char> },
    Dummy { model_name: Seq<char> },
    OpenAi { model_name: Seq<char> },
}

/// The connection configuration of one provider, tagged by its `type`
/// discriminant in the document.
#[derive(Debug)]
pub enum ProviderConfig {
    Anthropic { model_name: String },
    Azure { deployment_id: String, endpoint: String },
    Dummy { model_name: String },
    OpenAi { model_name: String },
}

impl DeepView for ProviderConfig {
    type V = ProviderV;

    open spec fn deep_view(&self) -> ProviderV {
        match self {
            ProviderConfig::Anthropic { model_name } => ProviderV::Anthropic {
                model_name: model_name@,
            },
            ProviderConfig::Azure { deployment_id, endpoint } => ProviderV::Azure {
                deployment_id: deployment_id@,
                endpoint: endpoint@,
            },
            ProviderConfig::Dummy { model_name } => ProviderV::Dummy { model_name: model_name@ },
            ProviderConfig::OpenAi { model_name } => ProviderV::OpenAi { model_name: model_name@ },
        }
    }
}

/// Ghost mirror of `ModelConfig`.
#[verifier::ext_equal]
pub struct ModelConfigV {
    pub routing: Seq<Seq<char>>,
    pub providers: Seq<(Seq<char>, ProviderV)>,
}

/// One declared model: the ordered providers it may be dispatched to
/// (`routing` encodes the try order) and each provider's connection
/// configuration.
#[derive(Debug)]
pub struct ModelConfig {
    pub routing: Vec<String>,
    pub providers: Vec<(String, ProviderConfig)>,
}

impl DeepView for ModelConfig {
    type V = ModelConfigV;

    open spec fn deep_view(&self) -> ModelConfigV {
        ModelConfigV { routing: self.routing.deep_view(), providers: self.providers.deep_view() }
    }
}

pub open spec fn provider_tag_key_known(k: Seq<char>) -> bool {
    k == "type"@
}

pub open spec fn provider_model_name_key_known(k: Seq<char>) -> bool {
    k == "type"@ || k == "model_name"@
}

pub open spec fn provider_azure_key_known(k: Seq<char>) -> bool {
    k == "type"@ || k == "deployment_id"@ || k == "endpoint"@
}

/// Read a required string field of an already-scanned table.
pub open spec fn spec_req_str(
    t: Seq<(Seq<char>, RawVal)>,
    field: Seq<char>,
    path: Seq<char>,
) -> Result<Seq<char>, DeserErrorV> {
    match alist_get(t, field) {
        None => Err(missing_field_v(field, path)),
        Some(v) => spec_expect_str(v, spec_extend_path(path, field)),
    }
}

/// A provider table: a `type` discriminant choosing the variant, then the
/// variant's own fields, no others.
pub open spec fn spec_deser_provider(t: Seq<(Seq<char>, RawVal)>, path: Seq<char>) -> Result<ProviderV, DeserErrorV> {
    match spec_req_str(t, "type"@, path) {
        Err(e) => Err(e),
        Ok(tag) => if tag == "anthropic"@ {
            match first_unknown(t, |k: Seq<char>| provider_model_name_key_known(k), 0) {
                Some(k) => Err(unknown_field_v(k, "one of `type`, `model_name`"@, path)),
                None => match spec_req_str(t, "model_name"@, path) {
                    Err(e) => Err(e),
                    Ok(m) => Ok(ProviderV::Anthropic { model_name: m }),
                },
            }
        } else if tag == "azure"@ {
            match first_unknown(t, |k: Seq<char>| provider_azure_key_known(k), 0) {
                Some(k) => Err(unknown_field_v(k, "one of `type`, `deployment_id`, `endpoint`"@, path)),
                None => match spec_req_str(t, "deployment_id"@, path) {
                    Err(e) => Err(e),
                    Ok(d) => match spec_req_str(t, "endpoint"@, path) {
                        Err(e) => Err(e),
                        Ok(ep) => Ok(ProviderV::Azure { deployment_id: d, endpoint: ep }),
                    },
                },
            }
        } else if tag == "dummy"@ {
            match first_unknown(t, |k: Seq<char>| provider_model_name_key_known(k), 0) {
                Some(k) => Err(unknown_field_v(k, "one of `type`, `model_name`"@, path)),
                None => match spec_req_str(t, "model_name"@, path) {
                    Err(e) => Err(e),
                    Ok(m) => Ok(ProviderV::Dummy { model_name: m }),
                },
            }
        } else if tag == "openai"@ {
            match first_unknown(t, |k: Seq<char>| provider_model_name_key_known(k), 0) {
                Some(k) => Err(unknown_field_v(k, "one of `type`, `model_name`"@, path)),
                None => match spec_req_str(t, "model_name"@, path) {
                    Err(e) => Err(e),
                    Ok(m) => Ok(ProviderV::OpenAi { model_name: m }),
                },
            }
        } else {
            Err(unknown_variant_v(tag, "one of `anthropic`, `azure`, `dummy`, `openai`"@, spec_extend_path(path, "type"@)))
        },
    }
}

/// The providers map, entry by entry in document order; each value must be
/// a table holding one provider configuration.
pub open spec fn spec_deser_providers_from(
    t: Seq<(Seq<char>, RawVal)>,
    path: Seq<char>,
    i: int,
) -> Result<Seq<(Seq<char>, ProviderV)>, DeserErrorV>
    decreases t.len() - i,
{
    if i < 0 || i >= t.len() {
        Ok(Seq::empty())
    } else {
        let entry_path = spec_extend_path(path, t[i].0);
        match spec_expect_table(t[i].1, entry_path) {
            Err(e) => Err(e),
            Ok(sub) => match spec_deser_provider(sub, entry_path) {
                Err(e) => Err(e),
                Ok(p) => match spec_deser_providers_from(t, path, i + 1) {
                    Err(e) => Err(e),
                    Ok(rest) => Ok(seq![(t[i].0, p)] + rest),
                },
            },
        }
    }
}

pub open spec fn model_key_known(k: Seq<char>) -> bool {
    k == "routing"@ || k == "providers"@
}

/// A `[models.<name>]` table: its `routing` list and its `providers` map.
pub open spec fn spec_deser_model(t: Seq<(Seq<char>, RawVal)>, path: Seq<char>) -> Result<ModelConfigV, DeserErrorV> {
    match first_unknown(t, |k: Seq<char>| model_key_known(k), 0) {
        Some(k) => Err(unknown_field_v(k, "one of `routing`, `providers`"@, path)),
        None => match alist_get(t, "routing"@) {
            None => Err(missing_field_v("routing"@, path)),
            Some(v0) => match spec_expect_string_array(v0, spec_extend_path(path, "routing"@)) {
                Err(e) => Err(e),
                Ok(routing) => match alist_get(t, "providers"@) {
                    None => Err(missing_field_v("providers"@, path)),
                    Some(v1) => {
                        let ppath = spec_extend_path(path, "providers"@);
                        match spec_expect_table(v1, ppath) {
                            Err(e) => Err(e),
                            Ok(sub) => match spec_deser_providers_from(sub, ppath, 0) {
                                Err(e) => Err(e),
                                Ok(providers) => Ok(ModelConfigV { routing, providers }),
                            },
                        }
                    },
                },
            },
        },
    }
}

fn req_str(t: &Vec<(String, RawValue)>, field: &str, path: &str) -> (r: Result<String, DeserError>)
    ensures
        res_dv(r) == spec_req_str(dv_entries(t@), field@, path@),
{
    match table_get(t, field) {
        None => Err(missing_field(field, path)),
        Some(v) => {
            let p = extend_path(path, field);
            expect_str(v, p.as_str())
        },
    }
}

/// Read one provider table.
pub fn deser_provider(t: &Vec<(String, RawValue)>, path: &str) -> (r: Result<ProviderConfig, DeserError>)
    ensures
        res_dv(r) == spec_deser_provider(dv_entries(t@), path@),
{
    let tag = match req_str(t, "type", path) {
        Err(e) => {
            return Err(e);
        },
        Ok(s) => s,
    };
    if str_eq(tag.as_str(), "anthropic") {
        if let Some(k) = scan_model_name_keys(t) {
            return Err(unknown_field(k.as_str(), "one of `type`, `model_name`", path));
        }
        match req_str(t, "model_name", path) {
            Err(e) => Err(e),
            Ok(m) => Ok(ProviderConfig::Anthropic { model_name: m }),
        }
    } else if str_eq(tag.as_str(), "azure") {
        if let Some(k) = scan_azure_keys(t) {
            return Err(unknown_field(k.as_str(), "one of `type`, `deployment_id`, `endpoint`", path));
        }
        match req_str(t, "deployment_id", path) {
            Err(e) => Err(e),
            Ok(d) => match req_str(t, "endpoint", path) {
                Err(e) => Err(e),
                Ok(ep) => Ok(ProviderConfig::Azure { deployment_id: d, endpoint: ep }),
            },
        }
    } else if str_eq(tag.as_str(), "dummy") {
        if let Some(k) = scan_model_name_keys(t) {
            return Err(unknown_field(k.as_str(), "one of `type`, `model_name`", path));
        }
        match req_str(t, "model_name", path) {
            Err(e) => Err(e),
            Ok(m) => Ok(ProviderConfig::Dummy { model_name: m }),
        }
    } else if str_eq(tag.as_str(), "openai") {
        if let Some(k) = scan_model_name_keys(t) {
            return Err(unknown_field(k.as_str(), "one of `type`, `model_name`", path));
        }
        match req_str(t, "model_name", path) {
            Err(e) => Err(e),
            Ok(m) => Ok(ProviderConfig::OpenAi { model_name: m }),
        }
    } else {
        let p = extend_path(path, "type");
        Err(unknown_variant(tag.as_str(), "one of `anthropic`, `azure`, `dummy`, `openai`", p.as_str()))
    }
}

fn scan_model_name_keys(t: &Vec<(String, RawValue)>) -> (r: Option<String>)
    ensures
        match r {
            Some(k) => first_unknown(dv_entries(t@), |k2: Seq<char>| provider_model_name_key_known(k2), 0) == Some(k@),
            None => first_unknown(dv_entries(t@), |k2: Seq<char>| provider_model_name_key_known(k2), 0) is None,
        },
{
    proof {
        lemma_dv_entries(t@);
    }
    let ghost tv = dv_entries(t@);
    let ghost known = |k2: Seq<char>| provider_model_name_key_known(k2);
    let mut i: usize = 0;
    while i < t.len()
        invariant
            0 <= i <= t.len(),
            tv == dv_entries(t@),
            tv.len() == t.len(),
            forall|j: int| 0 <= j < t.len() ==> tv[j] == (t@[j].0@, t@[j].1.dv()),
            first_unknown(tv, known, 0) == first_unknown(tv, known, i as int),
            known == (|k2: Seq<char>| provider_model_name_key_known(k2)),
        decreases t.len() - i,
    {
        let k = &t[i].0;
        if !(str_eq(k.as_str(), "type") || str_eq(k.as_str(), "model_name")) {
            return Some(k.clone());
        }
        i += 1;
    }
    None
}

fn scan_azure_keys(t: &Vec<(String, RawValue)>) -> (r: Option<String>)
    ensures
        match r {
            Some(k) => first_unknown(dv_entries(t@), |k2: Seq<char>| provider_azure_key_known(k2), 0) == Some(k@),
            None => first_unknown(dv_entries(t@), |k2: Seq<char>| provider_azure_key_known(k2), 0) is None,
        },
{
    proof {
        lemma_dv_entries(t@);
    }
    let ghost tv = dv_entries(t@);
    let ghost known = |k2: Seq<char>| provider_azure_key_known(k2);
    let mut i: usize = 0;
    while i < t.len()
        invariant
            0 <= i <= t.len(),
            tv == dv_entries(t@),
            tv.len() == t.len(),
            forall|j: int| 0 <= j < t.len() ==> tv[j] == (t@[j].0@, t@[j].1.dv()),
            first_unknown(tv, known, 0) == first_unknown(tv, known, i as int),
            known == (|k2: Seq<char>| provider_azure_key_known(k2)),
        decreases t.len() - i,
    {
        let k = &t[i].0;
        if !(str_eq(k.as_str(), "type") || str_eq(k.as_str(), "deployment_id") || str_eq(
            k.as_str(),
            "endpoint",
        )) {
            return Some(k.clone());
        }
        i += 1;
    }
    None
}

fn scan_model_keys(t: &Vec<(String, RawValue)>) -> (r: Option<String>)
    ensures
        match r {
            Some(k) => first_unknown(dv_entries(t@), |k2: Seq<char>| model_key_known(k2), 0) == Some(k@),
            None => first_unknown(dv_entries(t@), |k2: Seq<char>| model_key_known(k2), 0) is None,
        },
{
    proof {
        lemma_dv_entries(t@);
    }
    let ghost tv = dv_entries(t@);
    let ghost known = |k2: Seq<char>| model_key_known(k2);
    let mut i: usize = 0;
    while i < t.len()
        invariant
            0 <= i <= t.len(),
            tv == dv_entries(t@),
            tv.len() == t.len(),
            forall|j: int| 0 <= j < t.len() ==> tv[j] == (t@[j].0@, t@[j].1.dv()),
            first_unknown(tv, known, 0) == first_unknown(tv, known, i as int),
            known == (|k2: Seq<char>| model_key_known(k2)),
        decreases t.len() - i,
    {
        let k = &t[i].0;
        if !(str_eq(k.as_str(), "routing") || str_eq(k.as_str(), "providers")) {
            return Some(k.clone());
        }
        i += 1;
    }
    None
}

/// Read a providers map: every value must be a provider table.
fn deser_providers(t: &Vec<(String, RawValue)>, path: &str) -> (r: Result<
    Vec<(String, ProviderConfig)>,
    DeserError,
>)
    ensures
        res_dv(r) == spec_deser_providers_from(dv_entries(t@), path@, 0),
{
    proof {
        lemma_dv_entries(t@);
    }
    let ghost tv = dv_entries(t@);
    let ghost full = spec_deser_providers_from(tv, path@, 0);
    let mut out: Vec<(String, ProviderConfig)> = Vec::new();
    let mut i: usize = 0;
    while i < t.len()
        invariant
            0 <= i <= t.len(),
            tv == dv_entries(t@),
            tv.len() == t.len(),
            forall|j: int| 0 <= j < t.len() ==> tv[j] == (t@[j].0@, t@[j].1.dv()),
            full == spec_deser_providers_from(tv, path@, 0),
            out.len() == i,
            match spec_deser_providers_from(tv, path@, i as int) {
                Err(e) => full == Err::<Seq<(Seq<char>, ProviderV)>, DeserErrorV>(e),
                Ok(rest) => full == Ok::<Seq<(Seq<char>, ProviderV)>, DeserErrorV>(
                    out.deep_view() + rest,
                ),
            },
        decreases t.len() - i,
    {
        let name = &t[i].0;
        let entry_path = extend_path(path, name.as_str());
        let sub = match expect_table(&t[i].1, entry_path.as_str()) {
            Err(e) => {
                return Err(e);
            },
            Ok(sub) => sub,
        };
        let ghost out0 = out.deep_view();
        match deser_provider(sub, entry_path.as_str()) {
            Err(e) => {
                return Err(e);
            },
            Ok(p) => {
                let ghost pv = p.deep_view();
                let owned_name = name.clone();
                out.push((owned_name, p));
                proof {
                    assert(out.deep_view() =~= out0.push((tv[i as int].0, pv)));
                    match spec_deser_providers_from(tv, path@, i + 1 as int) {
                        Err(e) => {},
                        Ok(rest) => {
                            assert(out0 + (seq![(tv[i as int].0, pv)] + rest) =~= out.deep_view()
                                + rest);
                        },
                    }
                }
            },
        }
        i += 1;
    }
    proof {
        assert(out.deep_view() + Seq::<(Seq<char>, ProviderV)>::empty() =~= out.deep_view());
    }
    Ok(out)
}

/// Read one `[models.<name>]` table.
pub fn deser_model(t: &Vec<(String, RawValue)>, path: &str) -> (r: Result<ModelConfig, DeserError>)
    ensures
        res_dv(r) == spec_deser_model(dv_entries(t@), path@),
{
    if let Some(k) = scan_model_keys(t) {
        return Err(unknown_field(k.as_str(), "one of `routing`, `providers`", path));
    }
    let routing = match table_get(t, "routing") {
        None => {
            return Err(missing_field("routing", path));
        },
        Some(v) => {
            let p = extend_path(path, "routing");
            match expect_string_array(v, p.as_str()) {
                Err(e) => {
                    return Err(e);
                },
                Ok(rr) => rr,
            }
        },
    };
    let providers = match table_get(t, "providers") {
        None => {
            return Err(missing_field("providers", path));
        },
        Some(v) => {
            let p = extend_path(path, "providers");
            match expect_table(v, p.as_str()) {
                Err(e) => {
                    return Err(e);
                },
                Ok(sub) => match deser_providers(sub, p.as_str()) {
                    Err(e) => {
                        return Err(e);
                    },
                    Ok(ps) => ps,
                },
            }
        },
    };
    Ok(ModelConfig { routing, providers })
}

} // verus!
