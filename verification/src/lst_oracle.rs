//! The LST oracle: its owner keeps an LST's denom and redemption rate.

use vstd::prelude::*;
use crate::mmvault::execute::{attr, attr_is};
use crate::mmvault::msg::Attribute;
use crate::mmvault::state::TokenData;
use crate::precdec::{Dec, dec_debug, dec_debug_text};
use crate::text::{debug_str, debug_text};

verus! {

/// The oracle's configuration: the LST's denom and its redemption rate.
#[derive(Debug, Clone)]
pub struct Config {
    pub lst_asset_denom: String,
    pub redemption_rate: Dec,
}

#[derive(Debug, Clone)]
pub struct InstantiateMsg {
    pub owner: String,
    pub lst_asset_denom: String,
    pub redemption_rate: Dec,
}

/// The fields of the configuration an update replaces.
#[derive(Debug, Clone)]
pub struct UpdateConfig {
    pub lst_asset_denom: Option<String>,
    pub redemption_rate: Option<Dec>,
}

/// The owner's configuration update (ownership transfers are handled with
/// the host's ownership records).
#[derive(Debug, Clone)]
pub enum ExecuteMsg {
    UpdateConfig { new_config: UpdateConfig },
}

#[derive(Debug, Clone)]
pub enum QueryMsg {
    GetPrices { token_a: TokenData, token_b: TokenData },
    GetRedemptionRate {},
}

/// The configuration a new oracle stores (the host records the owner),
/// with the attributes to report.
pub fn instantiate(msg: InstantiateMsg) -> (r: (Config, Vec<Attribute>))
    ensures
        r.0.lst_asset_denom == msg.lst_asset_denom,
        r.0.redemption_rate == msg.redemption_rate,
        r.1@.len() == 2,
        attr_is(r.1@[0], "action"@, "instantiate"@),
        attr_is(r.1@[1], "redemption rate"@, dec_debug_text(msg.redemption_rate@)),
{
    let config = Config { lst_asset_denom: msg.lst_asset_denom, redemption_rate: msg.redemption_rate };
    let mut attributes: Vec<Attribute> = Vec::new();
    attributes.push(attr("action", String::from_str("instantiate")));
    attributes.push(attr("redemption rate", dec_debug(config.redemption_rate)));
    (config, attributes)
}

/// The owner's update of the configuration (the host checks the owner):
/// each field given replaces the old one.
pub fn execute_update_config(config: &mut Config, new_config: UpdateConfig) -> (r: Vec<Attribute>)
    ensures
        final(config).lst_asset_denom == match new_config.lst_asset_denom {
            Some(d) => d,
            None => old(config).lst_asset_denom,
        },
        final(config).redemption_rate == match new_config.redemption_rate {
            Some(q) => q,
            None => old(config).redemption_rate,
        },
        r@.len() == 3,
        attr_is(r@[0], "action"@, "update_config"@),
        attr_is(r@[1], "d_asset_base"@, debug_str(final(config).lst_asset_denom@)),
        attr_is(r@[2], "redemption_rate"@, dec_debug_text(final(config).redemption_rate@)),
{
    if let Some(d) = new_config.lst_asset_denom {
        config.lst_asset_denom = d;
    }
    if let Some(q) = new_config.redemption_rate {
        config.redemption_rate = q;
    }
    let mut attributes: Vec<Attribute> = Vec::new();
    attributes.push(attr("action", String::from_str("update_config")));
    attributes.push(attr("d_asset_base", debug_text(&config.lst_asset_denom)));
    attributes.push(attr("redemption_rate", dec_debug(config.redemption_rate)));
    attributes
}

} // verus!
