//! Metric declarations: a type, an optimization direction, and an
//! aggregation level.

use vstd::prelude::*;

use crate::de::{
    alist_get, expect_str, first_unknown, missing_field, missing_field_v,
    res_dv, spec_expect_str, table_get, unknown_field, unknown_field_v, unknown_variant,
    unknown_variant_v, DeserError, DeserErrorV,
};
use crate::raw::{dv_entries, lemma_dv_entries, RawVal, RawValue};
use crate::text::{extend_path, spec_extend_path, str_eq};

verus! {

/// Whether a metric's value is a truth value or a number.
#[derive(Debug, Clone, Copy, PartialEq, Eq, Structural)]
pub enum MetricConfigType {
    Boolean,
    Float,
}

/// Which direction of a metric is better.
#[derive(Debug, Clone, Copy, PartialEq, Eq, Structural)]
pub enum MetricConfigOptimize {
    Min,
    Max,
}

/// Whether a metric is attached to a single inference or a whole episode.
#[derive(Debug, Clone, Copy, PartialEq, Eq, Structural)]
pub enum MetricConfigLevel {
    Inference,
    Episode,
}

/// One declared metric.
#[derive(Debug, Clone, Copy, PartialEq, Eq, Structural)]
pub struct MetricConfig {
    pub kind: MetricConfigType,
    pub optimize: MetricConfigOptimize,
    pub level: MetricConfigLevel,
}

impl DeepView for MetricConfigType {
    type V = MetricConfigType;

    open spec fn deep_view(&self) -> MetricConfigType {
        *self
    }
}

impl DeepView for MetricConfigOptimize {
    type V = MetricConfigOptimize;

    open spec fn deep_view(&self) -> MetricConfigOptimize {
        *self
    }
}

impl DeepView for MetricConfigLevel {
    type V = MetricConfigLevel;

    open spec fn deep_view(&self) -> MetricConfigLevel {
        *self
    }
}

impl DeepView for MetricConfig {
    type V = MetricConfig;

    open spec fn deep_view(&self) -> MetricConfig {
        *self
    }
}

/// The name a level is written as in documents and feedback records.
pub open spec fn spec_level_name(l: MetricConfigLevel) -> Seq<char> {
    match l {
        MetricConfigLevel::Inference => "inference"@,
        MetricConfigLevel::Episode => "episode"@,
    }
}

impl MetricConfigLevel {
    /// The name this level is written as in documents and feedback records.
    pub fn as_name(&self) -> (r: &'static str)
        ensures
            r@ == spec_level_name(*self),
    {
        match self {
            MetricConfigLevel::Inference => "inference",
            MetricConfigLevel::Episode => "episode",
        }
    }
}

pub open spec fn metric_key_known(k: Seq<char>) -> bool {
    k == "type"@ || k == "optimize"@ || k == "level"@
}

pub open spec fn spec_parse_metric_type(s: Seq<char>, path: Seq<char>) -> Result<MetricConfigType, DeserErrorV> {
    if s == "boolean"@ {
        Ok(MetricConfigType::Boolean)
    } else if s == "float"@ {
        Ok(MetricConfigType::Float)
    } else {
        Err(unknown_variant_v(s, "`boolean` or `float`"@, path))
    }
}

pub open spec fn spec_parse_metric_optimize(s: Seq<char>, path: Seq<char>) -> Result<MetricConfigOptimize, DeserErrorV> {
    if s == "min"@ {
        Ok(MetricConfigOptimize::Min)
    } else if s == "max"@ {
        Ok(MetricConfigOptimize::Max)
    } else {
        Err(unknown_variant_v(s, "`min` or `max`"@, path))
    }
}

pub open spec fn spec_parse_metric_level(s: Seq<char>, path: Seq<char>) -> Result<MetricConfigLevel, DeserErrorV> {
    if s == "inference"@ {
        Ok(MetricConfigLevel::Inference)
    } else if s == "episode"@ {
        Ok(MetricConfigLevel::Episode)
    } else {
        Err(unknown_variant_v(s, "`inference` or `episode`"@, path))
    }
}

/// A metric table read field by field: any unrecognized key, then each of
/// the three required enum-valued fields.
pub open spec fn spec_deser_metric(t: Seq<(Seq<char>, RawVal)>, path: Seq<char>) -> Result<MetricConfig, DeserErrorV> {
    match first_unknown(t, |k: Seq<char>| metric_key_known(k), 0) {
        Some(k) => Err(unknown_field_v(k, "one of `type`, `optimize`, `level`"@, path)),
        None => match alist_get(t, "type"@) {
            None => Err(missing_field_v("type"@, path)),
            Some(v0) => match spec_expect_str(v0, spec_extend_path(path, "type"@)) {
                Err(e) => Err(e),
                Ok(s0) => match spec_parse_metric_type(s0, spec_extend_path(path, "type"@)) {
                    Err(e) => Err(e),
                    Ok(kind) => match alist_get(t, "optimize"@) {
                        None => Err(missing_field_v("optimize"@, path)),
                        Some(v1) => match spec_expect_str(v1, spec_extend_path(path, "optimize"@)) {
                            Err(e) => Err(e),
                            Ok(s1) => match spec_parse_metric_optimize(s1, spec_extend_path(path, "optimize"@)) {
                                Err(e) => Err(e),
                                Ok(optimize) => match alist_get(t, "level"@) {
                                    None => Err(missing_field_v("level"@, path)),
                                    Some(v2) => match spec_expect_str(v2, spec_extend_path(path, "level"@)) {
                                        Err(e) => Err(e),
                                        Ok(s2) => match spec_parse_metric_level(s2, spec_extend_path(path, "level"@)) {
                                            Err(e) => Err(e),
                                            Ok(level) => Ok(MetricConfig { kind, optimize, level }),
                                        },
                                    },
                                },
                            },
                        },
                    },
                },
            },
        },
    }
}

fn parse_metric_type(s: &String, path: &str) -> (r: Result<MetricConfigType, DeserError>)
    ensures
        res_dv(r) == spec_parse_metric_type(s@, path@),
{
    if str_eq(s.as_str(), "boolean") {
        Ok(MetricConfigType::Boolean)
    } else if str_eq(s.as_str(), "float") {
        Ok(MetricConfigType::Float)
    } else {
        Err(unknown_variant(s.as_str(), "`boolean` or `float`", path))
    }
}

fn parse_metric_optimize(s: &String, path: &str) -> (r: Result<MetricConfigOptimize, DeserError>)
    ensures
        res_dv(r) == spec_parse_metric_optimize(s@, path@),
{
    if str_eq(s.as_str(), "min") {
        Ok(MetricConfigOptimize::Min)
    } else if str_eq(s.as_str(), "max") {
        Ok(MetricConfigOptimize::Max)
    } else {
        Err(unknown_variant(s.as_str(), "`min` or `max`", path))
    }
}

fn parse_metric_level(s: &String, path: &str) -> (r: Result<MetricConfigLevel, DeserError>)
    ensures
        res_dv(r) == spec_parse_metric_level(s@, path@),
{
    if str_eq(s.as_str(), "inference") {
        Ok(MetricConfigLevel::Inference)
    } else if str_eq(s.as_str(), "episode") {
        Ok(MetricConfigLevel::Episode)
    } else {
        Err(unknown_variant(s.as_str(), "`inference` or `episode`", path))
    }
}

fn metric_unknown_key(t: &Vec<(String, RawValue)>) -> (r: Option<String>)
    ensures
        match r {
            Some(k) => first_unknown(dv_entries(t@), |k2: Seq<char>| metric_key_known(k2), 0)
                == Some(k@),
            None => first_unknown(dv_entries(t@), |k2: Seq<char>| metric_key_known(k2), 0) is None,
        },
{
    proof {
        lemma_dv_entries(t@);
    }
    let ghost tv = dv_entries(t@);
    let ghost known = |k2: Seq<char>| metric_key_known(k2);
    let mut i: usize = 0;
    while i < t.len()
        invariant
            0 <= i <= t.len(),
            tv == dv_entries(t@),
            tv.len() == t.len(),
            forall|j: int| 0 <= j < t.len() ==> tv[j] == (t@[j].0@, t@[j].1.dv()),
            first_unknown(tv, known, 0) == first_unknown(tv, known, i as int),
            known == (|k2: Seq<char>| metric_key_known(k2)),
        decreases t.len() - i,
    {
        let k = &t[i].0;
        if !(str_eq(k.as_str(), "type") || str_eq(k.as_str(), "optimize") || str_eq(
            k.as_str(),
            "level",
        )) {
            return Some(k.clone());
        }
        i += 1;
    }
    None
}

/// Read one `[metrics.<name>]` table.
pub fn deser_metric(t: &Vec<(String, RawValue)>, path: &str) -> (r: Result<MetricConfig, DeserError>)
    ensures
        res_dv(r) == spec_deser_metric(dv_entries(t@), path@),
{
    if let Some(k) = metric_unknown_key(t) {
        return Err(unknown_field(k.as_str(), "one of `type`, `optimize`, `level`", path));
    }
    let kind = {
        let p = extend_path(path, "type");
        match table_get(t, "type") {
            None => {
                return Err(missing_field("type", path));
            },
            Some(v) => match expect_str(v, p.as_str()) {
                Err(e) => {
                    return Err(e);
                },
                Ok(s) => match parse_metric_type(&s, p.as_str()) {
                    Err(e) => {
                        return Err(e);
                    },
                    Ok(k) => k,
                },
            },
        }
    };
    let optimize = {
        let p = extend_path(path, "optimize");
        match table_get(t, "optimize") {
            None => {
                return Err(missing_field("optimize", path));
            },
            Some(v) => match expect_str(v, p.as_str()) {
                Err(e) => {
                    return Err(e);
                },
                Ok(s) => match parse_metric_optimize(&s, p.as_str()) {
                    Err(e) => {
                        return Err(e);
                    },
                    Ok(o) => o,
                },
            },
        }
    };
    let level = {
        let p = extend_path(path, "level");
        match table_get(t, "level") {
            None => {
                return Err(missing_field("level", path));
            },
            Some(v) => match expect_str(v, p.as_str()) {
                Err(e) => {
                    return Err(e);
                },
                Ok(s) => match parse_metric_level(&s, p.as_str()) {
                    Err(e) => {
                        return Err(e);
                    },
                    Ok(l) => l,
                },
            },
        }
    };
    Ok(MetricConfig { kind, optimize, level })
}

} // verus!
