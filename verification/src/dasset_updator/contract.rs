use vstd::prelude::*;
use vstd::utf8::encode_utf8;
use crate::arith::seq_sum;
use crate::dasset_updator::error::{ContractError, ContractResult};
use crate::dasset_updator::msg::{AssetData, InstantiateMsg, UpdateConfig};
use crate::dasset_updator::state::Config;
use crate::dasset_updator::utils::{
    FeeTier, create_fee_tiers, dampen_fee, dampened_fee, fee_tiers_reason, oracle_skew_for,
    tiers_from, validate_instantiate_msg, validate_update_config, assets_summable,
    instantiate_reason, update_config_reason, refused_with,
};
use crate::mmvault::execute::{attr, attributes_are};
use crate::mmvault::msg::Attribute;
use crate::text::{contains_str, contains_string, decimal, signed_decimal, u64_to_string, usize_to_string, i32_to_string};
use crate::wasm::{WasmExecute, dex_deposit_body, dex_withdrawal_body, is_deposit_call, is_withdrawal_call};

verus! {

/// What the APY of one asset gives: whether it is zero, and otherwise the
/// raw fee `|(r*t) / (2*ln(1.0001))|` truncated to an integer.
#[derive(Debug, Clone, Copy)]
pub struct AssetRate {
    pub apy_is_zero: bool,
    pub raw_fee: u64,
}

/// The fee schedule derived for one asset with a non-zero APY.
#[derive(Debug, Clone)]
pub struct AssetFeeTiers {
    pub base_fee: u64,
    pub oracle_skew: i32,
    pub fee_tiers: Vec<FeeTier>,
}

/// The JSON of one tier: `{"fee":F,"percentage":P}`.
pub open spec fn tier_json(t: FeeTier) -> Seq<char> {
    "{\"fee\":"@ + decimal(t.fee as nat) + ",\"percentage\":"@ + decimal(t.percentage as nat) + "}"@
}

/// The tiers as JSON array items, separated by commas.
pub open spec fn tiers_json(ts: Seq<FeeTier>) -> Seq<char>
    decreases ts.len(),
{
    if ts.len() == 0 {
        Seq::empty()
    } else if ts.len() == 1 {
        tier_json(ts[0])
    } else {
        tiers_json(ts.drop_last()) + ","@ + tier_json(ts.last())
    }
}

/// The JSON body of the vault's `update_config` call (keys in serde_json's sorted order).
pub open spec fn update_json(ts: Seq<FeeTier>, skew: i32) -> Seq<char> {
    "{\"update_config\":{\"update\":{\"fee_tier_config\":{\"fee_tiers\":["@ + tiers_json(ts)
        + "]},\"oracle_price_skew\":"@ + signed_decimal(skew as int) + "}}}"@
}

/// A call of `update_config` on `addr` with these tiers and skew.
pub open spec fn is_update_call(m: WasmExecute, addr: Seq<char>, ts: Seq<FeeTier>, skew: i32) -> bool {
    m.contract_addr@ == addr && m.msg@ == encode_utf8(update_json(ts, skew))
}

fn tier_json_string(t: FeeTier) -> (r: String)
    ensures
        r@ == tier_json(t),
{
    let s = String::from_str("{\"fee\":");
    let f = u64_to_string(t.fee);
    let s = s.concat(f.as_str());
    let s = s.concat(",\"percentage\":");
    let p = u64_to_string(t.percentage);
    let s = s.concat(p.as_str());
    s.concat("}")
}

/// Create the update_config message for a vault contract
pub fn create_vault_update_message(
    vault_address: &str,
    fee_tiers: &[FeeTier],
    oracle_skew: i32,
    _sender: &str,
) -> (r: ContractResult<WasmExecute>)
    ensures
        r matches Ok(m) && is_update_call(m, vault_address@, fee_tiers@, oracle_skew),
{
    let mut body = String::from_str("{\"update_config\":{\"update\":{\"fee_tier_config\":{\"fee_tiers\":[");
    let ghost head = body@;
    let n = fee_tiers.len();
    let mut i: usize = 0;
    while i < n
        invariant
            n == fee_tiers@.len(),
            i <= n,
            body@ == head + tiers_json(fee_tiers@.take(i as int)),
        decreases n - i,
    {
        let t = tier_json_string(fee_tiers[i]);
        if i > 0 {
            body.append(",");
        }
        body.append(t.as_str());
        proof {
            let pre = fee_tiers@.take(i as int + 1);
            assert(pre.drop_last() =~= fee_tiers@.take(i as int));
            assert(pre.last() == fee_tiers@[i as int]);
            if i == 0 {
                assert(fee_tiers@.take(0) =~= Seq::<FeeTier>::empty());
                assert(body@ =~= head + tiers_json(pre));
            } else {
                assert(body@ =~= head + tiers_json(pre));
            }
        }
        i = i + 1;
    }
    assert(fee_tiers@.take(n as int) =~= fee_tiers@);
    body.append("]},\"oracle_price_skew\":");
    let skew = i32_to_string(oracle_skew);
    body.append(skew.as_str());
    body.append("}}}");
    assert(body@ =~= update_json(fee_tiers@, oracle_skew));
    let msg = body.as_str().as_bytes_vec();
    Ok(WasmExecute { contract_addr: String::from_str(vault_address), msg })
}

/// Create dex_withdrawal message
pub fn create_dex_withdrawal_message(vault_address: &str) -> (r: ContractResult<WasmExecute>)
    ensures
        r matches Ok(m) && is_withdrawal_call(m, vault_address@),
{
    Ok(WasmExecute { contract_addr: String::from_str(vault_address), msg: dex_withdrawal_body() })
}

/// Create dex_deposit message
pub fn create_dex_deposit_message(vault_address: &str) -> (r: ContractResult<WasmExecute>)
    ensures
        r matches Ok(m) && is_deposit_call(m, vault_address@),
{
    Ok(WasmExecute { contract_addr: String::from_str(vault_address), msg: dex_deposit_body() })
}

/// Building the fee schedule of an asset does not overflow: the percentages
/// sum within `u64`, and where tiers are built, base fee + spacing and base fee + 1 fit.
pub open spec fn schedule_fits(asset: AssetData, raw_fee: u64) -> bool {
    let base = dampened_fee(raw_fee, asset.fee_dempening_amount);
    &&& seq_sum(asset.percentages@) <= u64::MAX
    &&& fee_tiers_reason(asset.fee_spacings@, asset.percentages@) is None ==> {
        &&& base < u64::MAX
        &&& forall|i: int| 0 <= i < asset.fee_spacings@.len() ==> base + #[trigger] asset.fee_spacings@[i] <= u64::MAX
    }
}

/// The fee schedule of an asset with a non-zero APY: the dampened base fee,
/// tiers at base + each spacing, and an oracle skew of base + 1.
pub fn calculated_fee_tiers(asset: &AssetData, raw_fee: u64) -> (r: ContractResult<AssetFeeTiers>)
    requires
        schedule_fits(*asset, raw_fee),
    ensures
        match fee_tiers_reason(asset.fee_spacings@, asset.percentages@) {
            Some(reason) => r matches Err(ContractError::InvalidFeeTier { reason: got }) && got@ == reason,
            None => r matches Ok(s) && {
                &&& s.base_fee == dampened_fee(raw_fee, asset.fee_dempening_amount)
                &&& s.oracle_skew == (s.base_fee + 1) as i32
                &&& tiers_from(s.base_fee, asset.fee_spacings@, asset.percentages@, s.fee_tiers@)
            },
        },
{
    let base_fee = dampen_fee(raw_fee, asset.fee_dempening_amount);
    let fee_tiers = create_fee_tiers(base_fee, asset.fee_spacings.as_slice(), asset.percentages.as_slice())?;
    let oracle_skew = oracle_skew_for(base_fee);
    Ok(AssetFeeTiers { base_fee, oracle_skew, fee_tiers })
}

/// Checks an instantiate message and builds the configuration to store.
/// The host then validates each address and stores the configuration.
pub fn instantiate(msg: InstantiateMsg) -> (r: ContractResult<Config>)
    requires
        assets_summable(msg.assets@),
    ensures
        refused_with(match r { Ok(_) => Ok(()), Err(e) => Err(e) }, instantiate_reason(msg)),
        r matches Ok(c) ==> (c.assets == msg.assets && c.apy_contract == msg.apy_contract
            && c.whitelist == msg.whitelist),
{
    validate_instantiate_msg(&msg)?;
    Ok(Config { assets: msg.assets, apy_contract: msg.apy_contract, whitelist: msg.whitelist })
}

/// The configuration after an update: each provided field replaces the old one.
pub open spec fn updated_config(old: Config, u: UpdateConfig, new: Config) -> bool {
    &&& new.apy_contract == (match u.new_apy_contract { Some(a) => a, None => old.apy_contract })
    &&& new.whitelist == (match u.new_whitelist { Some(w) => w, None => old.whitelist })
    &&& new.assets == (match u.new_assets { Some(a) => a, None => old.assets })
}

/// Applies a configuration update. The update is validated first; then the
/// sender must be on the whitelist.
pub fn execute_update_config(config: Config, sender: &String, new_config: UpdateConfig) -> (r: ContractResult<Config>)
    requires
        new_config.new_assets matches Some(a) ==> assets_summable(a@),
    ensures
        update_config_reason(new_config) is Some ==> refused_with(
            match r { Ok(_) => Ok(()), Err(e) => Err(e) }, update_config_reason(new_config)),
        update_config_reason(new_config) is None && !contains_str(config.whitelist@, sender@)
            ==> r matches Err(ContractError::Unauthorized),
        update_config_reason(new_config) is None && contains_str(config.whitelist@, sender@)
            ==> (r matches Ok(c) && updated_config(config, new_config, c)),
{
    validate_update_config(&new_config)?;
    if !contains_string(&config.whitelist, sender) {
        return Err(ContractError::Unauthorized);
    }
    let mut result = config;
    match new_config.new_apy_contract {
        Some(a) => { result.apy_contract = a; },
        None => {},
    }
    match new_config.new_whitelist {
        Some(w) => { result.whitelist = w; },
        None => {},
    }
    match new_config.new_assets {
        Some(a) => { result.assets = a; },
        None => {},
    }
    Ok(result)
}

/// The calls for one asset: a withdrawal only when the APY is zero; otherwise
/// a withdrawal, the update of fee tiers and skew, then a deposit.
pub open spec fn asset_calls(asset: AssetData, rate: AssetRate, calls: Seq<WasmExecute>) -> bool {
    if rate.apy_is_zero {
        calls.len() == 1 && is_withdrawal_call(calls[0], asset.vault_address@)
    } else {
        let base = dampened_fee(rate.raw_fee, asset.fee_dempening_amount);
        &&& calls.len() == 3
        &&& is_withdrawal_call(calls[0], asset.vault_address@)
        &&& exists|ts: Seq<FeeTier>| tiers_from(base, asset.fee_spacings@, asset.percentages@, ts)
            && is_update_call(calls[1], asset.vault_address@, ts, (base + 1) as i32)
        &&& is_deposit_call(calls[2], asset.vault_address@)
    }
}

/// An asset with a non-zero APY whose fee tiers cannot be built.
pub open spec fn schedule_refused(asset: AssetData, rate: AssetRate) -> bool {
    !rate.apy_is_zero && fee_tiers_reason(asset.fee_spacings@, asset.percentages@) is Some
}

/// The concatenation of the calls of each asset, in order.
pub open spec fn flatten(parts: Seq<Seq<WasmExecute>>) -> Seq<WasmExecute>
    decreases parts.len(),
{
    if parts.len() == 0 {
        Seq::empty()
    } else {
        flatten(parts.drop_last()) + parts.last()
    }
}

/// Runs the vault update for every asset, given the APY outcome of each.
/// Only whitelisted senders may run it.
pub fn execute_run_vault_update(config: &Config, sender: &String, rates: &[AssetRate]) -> (r: ContractResult<Vec<WasmExecute>>)
    requires
        rates@.len() == config.assets@.len(),
        contains_str(config.whitelist@, sender@) ==> forall|i: int| 0 <= i < rates@.len() && !(#[trigger] rates@[i]).apy_is_zero
            && (forall|k: int| 0 <= k < i ==> !schedule_refused(config.assets@[k], #[trigger] rates@[k]))
            ==> schedule_fits(config.assets@[i], rates@[i].raw_fee),
    ensures
        !contains_str(config.whitelist@, sender@) ==> r matches Err(ContractError::Unauthorized),
        contains_str(config.whitelist@, sender@) ==> (r is Ok <==> forall|i: int| 0 <= i < rates@.len()
            ==> !schedule_refused(config.assets@[i], #[trigger] rates@[i])),
        r matches Err(e) ==> (e is Unauthorized || e is InvalidFeeTier),
        r matches Ok(msgs) ==> exists|parts: Seq<Seq<WasmExecute>>| {
            &&& parts.len() == rates@.len()
            &&& msgs@ == flatten(parts)
            &&& forall|i: int| 0 <= i < parts.len() ==> asset_calls(config.assets@[i], rates@[i], #[trigger] parts[i])
        },
{
    if !contains_string(&config.whitelist, sender) {
        return Err(ContractError::Unauthorized);
    }
    let mut messages: Vec<WasmExecute> = Vec::new();
    let ghost mut parts: Seq<Seq<WasmExecute>> = Seq::empty();
    let n = rates.len();
    let mut i: usize = 0;
    while i < n
        invariant
            n == rates@.len(),
            n == config.assets@.len(),
            contains_str(config.whitelist@, sender@),
            i <= n,
            parts.len() == i,
            messages@ == flatten(parts),
            forall|k: int| 0 <= k < i ==> asset_calls(config.assets@[k], rates@[k], #[trigger] parts[k]),
            forall|k: int| 0 <= k < i ==> !schedule_refused(config.assets@[k], #[trigger] rates@[k]),
            forall|j: int| 0 <= j < rates@.len() && !(#[trigger] rates@[j]).apy_is_zero
                && (forall|k: int| 0 <= k < j ==> !schedule_refused(config.assets@[k], #[trigger] rates@[k]))
                ==> schedule_fits(config.assets@[j], rates@[j].raw_fee),
        decreases n - i,
    {
        let asset = &config.assets[i];
        let rate = rates[i];
        let ghost before = messages@;
        let ghost part: Seq<WasmExecute>;
        if rate.apy_is_zero {
            let w = create_dex_withdrawal_message(asset.vault_address.as_str())?;
            messages.push(w);
            proof { part = seq![w]; }
        } else {
            let schedule = calculated_fee_tiers(asset, rate.raw_fee)?;
            let w = create_dex_withdrawal_message(asset.vault_address.as_str())?;
            let u = create_vault_update_message(
                asset.vault_address.as_str(),
                schedule.fee_tiers.as_slice(),
                schedule.oracle_skew,
                sender.as_str(),
            )?;
            let d = create_dex_deposit_message(asset.vault_address.as_str())?;
            messages.push(w);
            messages.push(u);
            messages.push(d);
            proof { part = seq![w, u, d]; }
        }
        proof {
            assert(messages@ =~= before + part);
            let new_parts = parts.push(part);
            assert(new_parts.drop_last() =~= parts);
            assert(asset_calls(config.assets@[i as int], rates@[i as int], part));
            parts = new_parts;
        }
        i = i + 1;
    }
    Ok(messages)
}

/// Only whitelisted senders run the vault update; the first attributes it
/// reports are the action and the number of vaults.
pub fn start_vault_update(config: &Config, sender: &String) -> (r: ContractResult<Vec<Attribute>>)
    ensures
        !contains_str(config.whitelist@, sender@) ==> r matches Err(ContractError::Unauthorized),
        contains_str(config.whitelist@, sender@) ==> (r matches Ok(attrs) && attributes_are(
            attrs@,
            seq![("action"@, "run_vault_update"@), ("vault_count"@, decimal(config.assets@.len()))],
        )),
{
    if !contains_string(&config.whitelist, sender) {
        return Err(ContractError::Unauthorized);
    }
    let mut attrs: Vec<Attribute> = Vec::new();
    attrs.push(attr("action", String::from_str("run_vault_update")));
    attrs.push(attr("vault_count", usize_to_string(config.assets.len())));
    Ok(attrs)
}

/// The key `vault_<denom><suffix>` of an attribute of one asset.
pub open spec fn vault_key(denom: Seq<char>, suffix: Seq<char>) -> Seq<char> {
    "vault_"@ + denom + suffix
}

/// What the update reports of one asset: with a zero APY, that it is only
/// withdrawn and why; otherwise its APY (as the host displays it), base fee
/// and oracle skew, and the full update.
pub open spec fn asset_entries(asset: AssetData, rate: AssetRate, apy_text: Seq<char>) -> Seq<(Seq<char>, Seq<char>)> {
    if rate.apy_is_zero {
        seq![
            (vault_key(asset.denom@, "_apy"@), "0"@),
            (vault_key(asset.denom@, "_action"@), "withdrawal_only"@),
            (vault_key(asset.denom@, "_reason"@), "zero_apy"@),
        ]
    } else {
        let base = dampened_fee(rate.raw_fee, asset.fee_dempening_amount);
        seq![
            (vault_key(asset.denom@, "_apy"@), apy_text),
            (vault_key(asset.denom@, "_base_fee"@), decimal(base as nat)),
            (vault_key(asset.denom@, "_oracle_skew"@), signed_decimal(((base + 1) as i32) as int)),
            (vault_key(asset.denom@, "_action"@), "full_update"@),
        ]
    }
}

fn keyed(denom: &String, suffix: &str, value: String) -> (r: Attribute)
    ensures
        r.key@ == vault_key(denom@, suffix@),
        r.value == value,
{
    let key = crate::text::concat_str("vault_", denom.as_str());
    let key = key.concat(suffix);
    Attribute { key, value }
}

/// The attributes the vault update reports of one asset (`apy_text` the
/// APY as the host displays it).
pub fn asset_attributes(asset: &AssetData, rate: AssetRate, apy_text: &String) -> (r: Vec<Attribute>)
    requires
        !rate.apy_is_zero ==> dampened_fee(rate.raw_fee, asset.fee_dempening_amount) < u64::MAX,
    ensures
        attributes_are(r@, asset_entries(*asset, rate, apy_text@)),
{
    let mut attrs: Vec<Attribute> = Vec::new();
    if rate.apy_is_zero {
        attrs.push(keyed(&asset.denom, "_apy", String::from_str("0")));
        attrs.push(keyed(&asset.denom, "_action", String::from_str("withdrawal_only")));
        attrs.push(keyed(&asset.denom, "_reason", String::from_str("zero_apy")));
    } else {
        let base = dampen_fee(rate.raw_fee, asset.fee_dempening_amount);
        attrs.push(keyed(&asset.denom, "_apy", apy_text.clone()));
        attrs.push(keyed(&asset.denom, "_base_fee", u64_to_string(base)));
        attrs.push(keyed(&asset.denom, "_oracle_skew", i32_to_string(oracle_skew_for(base))));
        attrs.push(keyed(&asset.denom, "_action", String::from_str("full_update")));
    }
    proof {
        reveal_strlit("0");
        reveal_strlit("withdrawal_only");
        reveal_strlit("zero_apy");
        reveal_strlit("full_update");
        assert(attributes_are(attrs@, asset_entries(*asset, rate, apy_text@)));
    }
    attrs
}

} // verus!
