//! Process-wide serving options of the gateway.

use vstd::prelude::*;

use crate::de::{
    first_unknown, opt_bool, res_dv, spec_opt_bool, unknown_field, unknown_field_v, DeserError,
    DeserErrorV,
};
use crate::raw::{dv_entries, lemma_dv_entries, RawVal, RawValue};
use crate::text::str_eq;
use crate::variant::{opt_str, spec_opt_str};

verus! {

/// Ghost mirror of `GatewayConfig`.
#[verifier::ext_equal]
pub struct GatewayConfigV {
    pub bind_address: Option<Seq<char>>,
    pub disable_observability: bool,
}

/// Process-wide serving options: an optional bind address and a flag that
/// switches observability off.  Nothing here refers to any other entity.
/// The address is carried exactly as written; parsing it is the network
/// listener's affair, and the listener is not part of this crate.
#[derive(Debug)]
pub struct GatewayConfig {
    pub bind_address: Option<String>,
    pub disable_observability: bool,
}

impl DeepView for GatewayConfig {
    type V = GatewayConfigV;

    open spec fn deep_view(&self) -> GatewayConfigV {
        GatewayConfigV {
            bind_address: self.bind_address.deep_view(),
            disable_observability: self.disable_observability,
        }
    }
}

/// The options that hold when the document has no `[gateway]` section.
pub open spec fn spec_gateway_default() -> GatewayConfigV {
    GatewayConfigV { bind_address: None, disable_observability: false }
}

impl Default for GatewayConfig {
    fn default() -> (r: GatewayConfig)
        ensures
            r.deep_view() == spec_gateway_default(),
    {
        GatewayConfig { bind_address: None, disable_observability: false }
    }
}

pub open spec fn gateway_key_known(k: Seq<char>) -> bool {
    k == "bind_address"@ || k == "disable_observability"@
}

/// The `[gateway]` table: an optional bind address and an optional
/// observability switch.
pub open spec fn spec_deser_gateway(t: Seq<(Seq<char>, RawVal)>, path: Seq<char>) -> Result<
    GatewayConfigV,
    DeserErrorV,
> {
    match first_unknown(t, |k: Seq<char>| gateway_key_known(k), 0) {
        Some(k) => Err(unknown_field_v(
            k,
            "one of `bind_address`, `disable_observability`"@,
            path,
        )),
        None => match spec_opt_str(t, "bind_address"@, path) {
            Err(e) => Err(e),
            Ok(bind_address) => match spec_opt_bool(t, "disable_observability"@, path) {
                Err(e) => Err(e),
                Ok(disable_observability) => Ok(GatewayConfigV {
                    bind_address,
                    disable_observability,
                }),
            },
        },
    }
}

fn scan_gateway_keys(t: &Vec<(String, RawValue)>) -> (r: Option<String>)
    ensures
        match r {
            Some(k) => first_unknown(dv_entries(t@), |k2: Seq<char>| gateway_key_known(k2), 0)
                == Some(k@),
            None => first_unknown(dv_entries(t@), |k2: Seq<char>| gateway_key_known(k2), 0) is None,
        },
{
    proof {
        lemma_dv_entries(t@);
    }
    let ghost tv = dv_entries(t@);
    let ghost known = |k2: Seq<char>| gateway_key_known(k2);
    let mut i: usize = 0;
    while i < t.len()
        invariant
            0 <= i <= t.len(),
            tv == dv_entries(t@),
            tv.len() == t.len(),
            forall|j: int| 0 <= j < t.len() ==> tv[j] == (t@[j].0@, t@[j].1.dv()),
            first_unknown(tv, known, 0) == first_unknown(tv, known, i as int),
            known == (|k2: Seq<char>| gateway_key_known(k2)),
        decreases t.len() - i,
    {
        let k = &t[i].0;
        if !(str_eq(k.as_str(), "bind_address") || str_eq(k.as_str(), "disable_observability")) {
            return Some(k.clone());
        }
        i += 1;
    }
    None
}

/// Read the `[gateway]` table.
pub fn deser_gateway(t: &Vec<(String, RawValue)>, path: &str) -> (r: Result<
    GatewayConfig,
    DeserError,
>)
    ensures
        res_dv(r) == spec_deser_gateway(dv_entries(t@), path@),
{
    if let Some(k) = scan_gateway_keys(t) {
        return Err(unknown_field(k.as_str(), "one of `bind_address`, `disable_observability`", path));
    }
    let bind_address = match opt_str(t, "bind_address", path) {
        Err(e) => {
            return Err(e);
        },
        Ok(o) => o,
    };
    let disable_observability = match opt_bool(t, "disable_observability", path) {
        Err(e) => {
            return Err(e);
        },
        Ok(b) => b,
    };
    Ok(GatewayConfig { bind_address, disable_observability })
}

} // verus!
