//! The plain Slinky oracle: it keeps no state of its own beyond its
//! contract version, and migrates only from itself.

use vstd::prelude::*;
use crate::mmvault::execute::{attr, attr_is};
use crate::mmvault::msg::Attribute;
use crate::mmvault::state::TokenData;

verus! {

#[derive(Debug, Clone, PartialEq, Eq)]
pub enum ContractError {
    InvalidMigration { previous_contract: String },
    SerializationError,
}

#[derive(Debug, Clone)]
pub enum QueryMsg {
    GetPrices { token_a: TokenData, token_b: TokenData },
}

/// The attributes of instantiation: the method, and the contract's name and
/// version.
pub fn instantiate_attributes(name: &str, version: &str) -> (r: Vec<Attribute>)
    ensures
        r@.len() == 3,
        attr_is(r@[0], "method"@, "instantiate"@),
        attr_is(r@[1], "contract_name"@, name@),
        attr_is(r@[2], "contract_version"@, version@),
{
    let mut attributes: Vec<Attribute> = Vec::new();
    attributes.push(attr("method", String::from_str("instantiate")));
    attributes.push(attr("contract_name", String::from_str(name)));
    attributes.push(attr("contract_version", String::from_str(version)));
    attributes
}

/// A migration is accepted only from this same contract (by the stored
/// contract name); the attributes report the old and new versions.
pub fn migrate(current_contract: &String, current_version: &String, name: &str, version: &str) -> (r: Result<
    Vec<Attribute>,
    ContractError,
>)
    ensures
        current_contract@ != name@ ==> r == Err::<Vec<Attribute>, ContractError>(
            ContractError::InvalidMigration { previous_contract: *current_contract },
        ),
        current_contract@ == name@ ==> {
            &&& r matches Ok(attrs)
            &&& attrs@.len() == 3
            &&& attr_is(attrs@[0], "method"@, "migrate"@)
            &&& attr_is(attrs@[1], "previous_version"@, current_version@)
            &&& attr_is(attrs@[2], "new_version"@, version@)
        },
{
    let expected = String::from_str(name);
    if *current_contract != expected {
        return Err(ContractError::InvalidMigration { previous_contract: current_contract.clone() });
    }
    let mut attributes: Vec<Attribute> = Vec::new();
    attributes.push(attr("method", String::from_str("migrate")));
    attributes.push(attr("previous_version", current_version.clone()));
    attributes.push(attr("new_version", String::from_str(version)));
    Ok(attributes)
}

} // verus!
