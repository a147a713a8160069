//! The static maxBTC oracle: a set of owners keeps the redemption rates of
//! maxBTC and of an LST, and answers them as cosmwasm decimals.

use vstd::prelude::*;
use crate::mmvault::execute::{attr, attr_is, attributes_are};
use crate::mmvault::msg::Attribute;
use crate::mmvault::state::TokenData;
use crate::mmvault::utils::parsed_u128;
use crate::precdec::{Dec, dec_debug, dec_debug_text, dec_text, dec_to_string};
use vstd::arithmetic::power::pow;
use crate::text::{addr_list_debug, addr_list_text, contains_str, contains_string, debug_str, debug_text};

verus! {

/// Errors of the static maxBTC oracle (address checks and storage are the
/// host's).
#[derive(Debug, Clone, PartialEq, Eq)]
pub enum ContractError {
    Unauthorized,
    DecimalConversionError,
    SerializationError,
}

/// The oracle's configuration: its owners, and the two assets' denoms and
/// redemption rates.
#[derive(Debug, Clone)]
pub struct Config {
    pub owners: Vec<String>,
    pub maxbtc_redemption_rate: Dec,
    pub maxbtc_denom: String,
    pub lst_denom: String,
    pub lst_redemption_rate: Dec,
}

#[derive(Debug, Clone)]
pub struct InstantiateMsg {
    pub initial_owners: Vec<String>,
    pub maxbtc_redemption_rate: Dec,
    pub maxbtc_denom: String,
    pub lst_denom: String,
    pub lst_redemption_rate: Dec,
}

/// The fields of the configuration an update replaces.
#[derive(Debug, Clone)]
pub struct UpdateConfig {
    pub owners: Option<Vec<String>>,
    pub maxbtc_redemption_rate: Option<Dec>,
    pub maxbtc_denom: Option<String>,
    pub lst_denom: Option<String>,
    pub lst_redemption_rate: Option<Dec>,
}

#[derive(Debug, Clone)]
pub enum ExecuteMsg {
    UpdateConfig { new_config: UpdateConfig },
}

/// The query the maxBTC core contract answers: its exchange rate.
#[derive(Debug, Clone)]
pub enum CoreQueryMsg {
    ExchangeRate {},
}

#[derive(Debug, Clone)]
pub enum QueryMsg {
    GetPrices { token_a: TokenData, token_b: TokenData },
    GetRedemptionRates {},
    GetMaxBtcRedemptionRate {},
    GetLstRedemptionRate {},
    GetMaxBtcDenom {},
    GetLstDenom {},
    GetOwners {},
    IsOwner { address: String },
}

/// The keys and values the configuration reports after its owners (or,
/// at instantiation, on its own).
pub open spec fn rate_entries(c: Config) -> Seq<(Seq<char>, Seq<char>)> {
    seq![
        ("maxbtc_redemption_rate"@, dec_debug_text(c.maxbtc_redemption_rate@)),
        ("maxbtc_denom"@, debug_str(c.maxbtc_denom@)),
        ("lst_denom"@, debug_str(c.lst_denom@)),
        ("lst_redemption_rate"@, dec_debug_text(c.lst_redemption_rate@)),
    ]
}

/// The four rate attributes of a configuration, after those already there.
fn push_rate_attributes(attrs: &mut Vec<Attribute>, c: &Config)
    ensures
        final(attrs)@.len() == old(attrs)@.len() + 4,
        forall|i: int| 0 <= i < old(attrs)@.len() ==> final(attrs)@[i] == old(attrs)@[i],
        forall|i: int|
            0 <= i < 4 ==> attr_is(
                #[trigger] final(attrs)@[old(attrs)@.len() + i],
                rate_entries(*c)[i].0,
                rate_entries(*c)[i].1,
            ),
{
    attrs.push(attr("maxbtc_redemption_rate", dec_debug(c.maxbtc_redemption_rate)));
    attrs.push(attr("maxbtc_denom", debug_text(&c.maxbtc_denom)));
    attrs.push(attr("lst_denom", debug_text(&c.lst_denom)));
    attrs.push(attr("lst_redemption_rate", dec_debug(c.lst_redemption_rate)));
}

fn copy_strings(v: &Vec<String>) -> (r: Vec<String>)
    ensures
        r@ == v@,
{
    let mut r: Vec<String> = Vec::new();
    let n = v.len();
    let mut i: usize = 0;
    while i < n
        invariant
            n == v@.len(),
            i <= n,
            r@ == v@.take(i as int),
        decreases n - i,
    {
        r.push(v[i].clone());
        proof {
            assert(r@ =~= v@.take(i as int + 1));
        }
        i = i + 1;
    }
    assert(v@.take(n as int) =~= v@);
    r
}

/// The configuration a new oracle stores (the host validates the owners'
/// addresses), with the attributes to report.
pub fn instantiate(msg: &InstantiateMsg) -> (r: (Config, Vec<Attribute>))
    ensures
        r.0.owners@ == msg.initial_owners@,
        r.0.maxbtc_redemption_rate == msg.maxbtc_redemption_rate,
        r.0.maxbtc_denom == msg.maxbtc_denom,
        r.0.lst_denom == msg.lst_denom,
        r.0.lst_redemption_rate == msg.lst_redemption_rate,
        attributes_are(r.1@, seq![("action"@, "instantiate"@)] + rate_entries(r.0)),
{
    let config = Config {
        owners: copy_strings(&msg.initial_owners),
        maxbtc_redemption_rate: msg.maxbtc_redemption_rate,
        maxbtc_denom: msg.maxbtc_denom.clone(),
        lst_denom: msg.lst_denom.clone(),
        lst_redemption_rate: msg.lst_redemption_rate,
    };
    let mut attributes: Vec<Attribute> = Vec::new();
    attributes.push(attr("action", String::from_str("instantiate")));
    push_rate_attributes(&mut attributes, &config);
    proof {
        let e = seq![("action"@, "instantiate"@)] + rate_entries(config);
        assert forall|i: int| 0 <= i < e.len() implies attr_is(#[trigger] attributes@[i], e[i].0, e[i].1) by {
            if i > 0 {
                assert(attr_is(attributes@[1 + (i - 1)], rate_entries(config)[i - 1].0, rate_entries(config)[i - 1].1));
            }
        }
    }
    (config, attributes)
}

/// The configuration an update leaves: each field given replaces the old.
pub open spec fn updated(c: Config, u: UpdateConfig) -> Config {
    Config {
        owners: match u.owners {
            Some(o) => o,
            None => c.owners,
        },
        maxbtc_redemption_rate: match u.maxbtc_redemption_rate {
            Some(x) => x,
            None => c.maxbtc_redemption_rate,
        },
        maxbtc_denom: match u.maxbtc_denom {
            Some(x) => x,
            None => c.maxbtc_denom,
        },
        lst_denom: match u.lst_denom {
            Some(x) => x,
            None => c.lst_denom,
        },
        lst_redemption_rate: match u.lst_redemption_rate {
            Some(x) => x,
            None => c.lst_redemption_rate,
        },
    }
}

/// An update replaces exactly the fields it gives: each given value is the
/// one stored, and each field left out keeps its old value.
pub proof fn lemma_update_replaces_given_fields(c: Config, u: UpdateConfig)
    ensures
        u.owners matches Some(o) ==> updated(c, u).owners == o,
        u.owners is None ==> updated(c, u).owners == c.owners,
        u.maxbtc_redemption_rate matches Some(x) ==> updated(c, u).maxbtc_redemption_rate == x,
        u.maxbtc_redemption_rate is None ==> updated(c, u).maxbtc_redemption_rate == c.maxbtc_redemption_rate,
        u.maxbtc_denom matches Some(x) ==> updated(c, u).maxbtc_denom == x,
        u.maxbtc_denom is None ==> updated(c, u).maxbtc_denom == c.maxbtc_denom,
        u.lst_denom matches Some(x) ==> updated(c, u).lst_denom == x,
        u.lst_denom is None ==> updated(c, u).lst_denom == c.lst_denom,
        u.lst_redemption_rate matches Some(x) ==> updated(c, u).lst_redemption_rate == x,
        u.lst_redemption_rate is None ==> updated(c, u).lst_redemption_rate == c.lst_redemption_rate,
{
}

/// An owner's update of the configuration (the host validates new owners'
/// addresses); anyone else is refused and nothing changes.
pub fn execute_update_config(config: &mut Config, sender: &String, new_config: UpdateConfig) -> (r: Result<
    Vec<Attribute>,
    ContractError,
>)
    ensures
        !contains_str(old(config).owners@, sender@) ==> r == Err::<Vec<Attribute>, ContractError>(
            ContractError::Unauthorized,
        ) && *final(config) == *old(config),
        contains_str(old(config).owners@, sender@) ==> (new_config.lst_redemption_rate matches Some(x)
            ==> final(config).lst_redemption_rate == x),
        contains_str(old(config).owners@, sender@) ==> (new_config.maxbtc_redemption_rate matches Some(x)
            ==> final(config).maxbtc_redemption_rate == x),
        contains_str(old(config).owners@, sender@) ==> {
            &&& *final(config) == updated(*old(config), new_config)
            &&& r matches Ok(attrs)
            &&& attributes_are(
                attrs@,
                seq![("action"@, "update_config"@), ("owners"@, addr_list_text(final(config).owners@))]
                    + rate_entries(*final(config)),
            )
        },
{
    if !contains_string(&config.owners, sender) {
        return Err(ContractError::Unauthorized);
    }
    if let Some(owners) = new_config.owners {
        config.owners = owners;
    }
    if let Some(x) = new_config.maxbtc_redemption_rate {
        config.maxbtc_redemption_rate = x;
    }
    if let Some(x) = new_config.maxbtc_denom {
        config.maxbtc_denom = x;
    }
    if let Some(x) = new_config.lst_denom {
        config.lst_denom = x;
    }
    if let Some(x) = new_config.lst_redemption_rate {
        config.lst_redemption_rate = x;
    }
    let mut attributes: Vec<Attribute> = Vec::new();
    attributes.push(attr("action", String::from_str("update_config")));
    attributes.push(attr("owners", addr_list_debug(&config.owners)));
    push_rate_attributes(&mut attributes, config);
    proof {
        let e = seq![("action"@, "update_config"@), ("owners"@, addr_list_text(config.owners@))] + rate_entries(*config);
        assert forall|i: int| 0 <= i < e.len() implies attr_is(#[trigger] attributes@[i], e[i].0, e[i].1) by {
            if i > 1 {
                assert(attr_is(attributes@[2 + (i - 2)], rate_entries(*config)[i - 2].0, rate_entries(*config)[i - 2].1));
            }
        }
    }
    Ok(attributes)
}

/// Whether the address is one of the owners.
pub fn is_owner(config: &Config, address: &String) -> (r: bool)
    ensures
        r == contains_str(config.owners@, address@),
{
    contains_string(&config.owners, address)
}

/// What cosmwasm `Decimal::from_str` reads from a text, as its 18-digit
/// atomics: a whole part and, after at most one point, at most 18 fraction
/// digits, each part read as `u128` reads it, the value fitting in 128 bits;
/// `None` for any other text.
pub open spec fn decimal_parse(s: Seq<char>) -> Option<u128> {
    if !s.contains('.') {
        match parsed_u128(s) {
            Some(w) => if w * 1_000_000_000_000_000_000nat <= u128::MAX {
                Some((w * 1_000_000_000_000_000_000nat) as u128)
            } else {
                None
            },
            None => None,
        }
    } else {
        let k = s.index_of('.');
        let whole = s.take(k);
        let frac = s.skip(k + 1);
        if whole.contains('.') || frac.contains('.') || frac.len() > 18 {
            None
        } else {
            match (parsed_u128(whole), parsed_u128(frac)) {
                (Some(w), Some(f)) => {
                    let v = w * 1_000_000_000_000_000_000nat + f * pow(10, (18 - frac.len()) as nat);
                    if v <= u128::MAX {
                        Some(v as u128)
                    } else {
                        None
                    }
                },
                _ => None,
            }
        }
    }
}

/// `cosmwasm_std::Decimal::from_str`, keeping the atomics of the decimal.
#[verifier::external_body]
fn decimal_from_text(s: &String) -> (r: Option<u128>)
    ensures
        r == decimal_parse(s@),
{
    match <cosmwasm_std::Decimal as core::str::FromStr>::from_str(s) {
        Ok(d) => Some(d.atomics().u128()),
        Err(_) => None,
    }
}

/// A parsed rate, or the conversion error when the text did not parse.
pub fn parsed_rate(parsed: Option<u128>) -> (r: Result<u128, ContractError>)
    ensures
        match parsed {
            Some(a) => r == Ok::<u128, ContractError>(a),
            None => r == Err::<u128, ContractError>(ContractError::DecimalConversionError),
        },
{
    match parsed {
        Some(a) => Ok(a),
        None => Err(ContractError::DecimalConversionError),
    }
}

/// A redemption rate as a cosmwasm decimal (its 18-digit atomics): the
/// rate's text, read back by `Decimal`.
pub fn rate_as_decimal(rate: Dec) -> (r: Result<u128, ContractError>)
    ensures
        match decimal_parse(dec_text(rate@)) {
            Some(a) => r == Ok::<u128, ContractError>(a),
            None => r == Err::<u128, ContractError>(ContractError::DecimalConversionError),
        },
{
    let text = dec_to_string(rate);
    parsed_rate(decimal_from_text(&text))
}

} // verus!
