use vstd::prelude::*;
use crate::mmvault::execute::{attr, attr_is};
use crate::mmvault::msg::Attribute;
use crate::oracle::state::Config;
use crate::text::{debug_str, debug_text};

verus! {

/// What instantiating the oracle asks for: its owner, the dAsset core
/// contract and the dAsset's denom.
#[derive(Debug, Clone)]
pub struct InstantiateMsg {
    pub core_contract: String,
    pub owner: String,
    pub d_asset_denom: String,
}

/// The fields of the configuration an update replaces.
#[derive(Debug, Clone)]
pub struct UpdateConfig {
    pub core_contract: Option<String>,
    pub d_asset_denom: Option<String>,
}

/// The `Debug` rendering of a validated address: `Addr("..")`.
pub open spec fn addr_text(a: Seq<char>) -> Seq<char> {
    "Addr("@ + debug_str(a) + ")"@
}

fn addr_debug(a: &String) -> (r: String)
    ensures
        r@ == addr_text(a@),
{
    let s = String::from_str("Addr(");
    let d = debug_text(a);
    let s = s.concat(d.as_str());
    s.concat(")")
}

/// The configuration of a new oracle, with the attributes to report. The
/// host validates the addresses and records the owner.
pub fn instantiate(msg: InstantiateMsg) -> (r: (Config, Vec<Attribute>))
    ensures
        r.0.core_contract == msg.core_contract,
        r.0.d_asset_denom == msg.d_asset_denom,
        r.1@.len() == 2,
        attr_is(r.1@[0], "action"@, "instantiate"@),
        attr_is(r.1@[1], "core contract"@, addr_text(msg.core_contract@)),
{
    let config = Config { core_contract: msg.core_contract, d_asset_denom: msg.d_asset_denom };
    let mut attributes: Vec<Attribute> = Vec::new();
    attributes.push(attr("action", String::from_str("instantiate")));
    attributes.push(attr("core contract", addr_debug(&config.core_contract)));
    (config, attributes)
}

/// The owner's update of the configuration: each field given replaces the
/// old one. The host checks the owner and validates the address.
pub fn execute_update_config(config: &mut Config, new_config: UpdateConfig) -> (r: Vec<Attribute>)
    ensures
        final(config).core_contract == match new_config.core_contract {
            Some(c) => c,
            None => old(config).core_contract,
        },
        final(config).d_asset_denom == match new_config.d_asset_denom {
            Some(d) => d,
            None => old(config).d_asset_denom,
        },
        r@.len() == 3,
        attr_is(r@[0], "action"@, "update_config"@),
        attr_is(r@[1], "core contract"@, addr_text(final(config).core_contract@)),
        attr_is(r@[2], "d_asset_base"@, debug_str(final(config).d_asset_denom@)),
{
    if let Some(core_contract) = new_config.core_contract {
        config.core_contract = core_contract;
    }
    if let Some(d_asset_denom) = new_config.d_asset_denom {
        config.d_asset_denom = d_asset_denom;
    }
    let mut attributes: Vec<Attribute> = Vec::new();
    attributes.push(attr("action", String::from_str("update_config")));
    attributes.push(attr("core contract", addr_debug(&config.core_contract)));
    attributes.push(attr("d_asset_base", debug_text(&config.d_asset_denom)));
    attributes
}

} // verus!
