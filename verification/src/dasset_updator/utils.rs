use vstd::prelude::*;
use crate::arith::{seq_sum, sum_u64, lemma_seq_sum_elem_le};
use crate::dasset_updator::error::{ContractError, ContractResult};
use crate::dasset_updator::msg::{AssetData, InstantiateMsg, UpdateConfig};
use crate::text::{decimal, is_blank, is_blank_spec, str_num, str_num_str, str_num_str_num, str_num_str_num_str, concat_str, usize_to_string};

verus! {

/// One fee tier of a vault: the fee in basis points and the share of funds.
#[derive(Debug, Clone, Copy)]
pub struct FeeTier {
    pub fee: u64,
    pub percentage: u64,
}

impl FeeTier {
    pub fn new(fee: u64, percentage: u64) -> (r: Self)
        ensures
            r.fee == fee,
            r.percentage == percentage,
    {
        Self { fee, percentage }
    }
}

/// The base fee after dampening: the dampening amount is subtracted only when
/// the raw fee exceeds it; otherwise the raw fee stands.
pub open spec fn dampened_fee(raw: u64, dampening: u64) -> u64 {
    if raw > dampening { (raw - dampening) as u64 } else { raw }
}

/// Dampening takes the dampening amount off the raw fee when the raw fee is
/// larger, and leaves a raw fee no larger than it as it is.
pub proof fn lemma_dampening_subtracts_when_it_can(raw: u64, dampening: u64)
    ensures
        raw > dampening ==> dampened_fee(raw, dampening) + dampening == raw,
        raw <= dampening ==> dampened_fee(raw, dampening) == raw,
{
}

/// Applies the dampening step of the fee calculation to the raw fee
/// `|(r*t) / (2*ln(1.0001))|` truncated to an integer.
pub fn dampen_fee(raw_fee: u64, fee_dempening_amount: u64) -> (r: u64)
    ensures
        r == dampened_fee(raw_fee, fee_dempening_amount),
        r <= raw_fee,
        raw_fee > fee_dempening_amount ==> r == raw_fee - fee_dempening_amount,
        raw_fee <= fee_dempening_amount ==> r == raw_fee,
{
    let mut fee = raw_fee;
    if fee > fee_dempening_amount {
        fee = fee - fee_dempening_amount;
    }
    fee
}

/// The oracle skew sent with new fee tiers: the base fee plus one, as an `i32`.
pub fn oracle_skew_for(base_fee: u64) -> (r: i32)
    requires
        base_fee < u64::MAX,
    ensures
        r == (base_fee + 1) as i32,
{
    (base_fee + 1) as i32
}

/// Why `create_fee_tiers` refuses its input, if it does.
pub open spec fn fee_tiers_reason(values: Seq<u64>, percentages: Seq<u64>) -> Option<Seq<char>> {
    if seq_sum(percentages) != 100 {
        Some("Fee tier percentages must sum to 100"@)
    } else if percentages.len() != values.len() {
        Some("Number of percentages must match number of fee tier values"@)
    } else {
        None
    }
}

/// The tiers built from a base fee: one per spacing, fee = base + spacing.
pub open spec fn tiers_from(base: u64, values: Seq<u64>, percentages: Seq<u64>, tiers: Seq<FeeTier>) -> bool {
    &&& tiers.len() == values.len()
    &&& forall|i: int| 0 <= i < values.len() ==> {
        &&& (#[trigger] tiers[i]).fee == base + values[i]
        &&& tiers[i].percentage == percentages[i]
    }
}

/// Create fee tiers by adding spacings to the calculated base fee
pub fn create_fee_tiers(
    calculated_base_fee: u64,
    fee_tier_values: &[u64],
    percentages: &[u64],
) -> (r: ContractResult<Vec<FeeTier>>)
    requires
        seq_sum(percentages@) <= u64::MAX,
        fee_tiers_reason(fee_tier_values@, percentages@) is None ==> forall|i: int|
            0 <= i < fee_tier_values@.len() ==> calculated_base_fee + #[trigger] fee_tier_values@[i] <= u64::MAX,
    ensures
        match fee_tiers_reason(fee_tier_values@, percentages@) {
            Some(reason) => r matches Err(ContractError::InvalidFeeTier { reason: got }) && got@ == reason,
            None => r matches Ok(tiers) && tiers_from(calculated_base_fee, fee_tier_values@, percentages@, tiers@),
        },
{
    let total_percentage = sum_u64(percentages);
    if total_percentage != 100 {
        return Err(ContractError::InvalidFeeTier {
            reason: String::from_str("Fee tier percentages must sum to 100"),
        });
    }
    if percentages.len() != fee_tier_values.len() {
        return Err(ContractError::InvalidFeeTier {
            reason: String::from_str("Number of percentages must match number of fee tier values"),
        });
    }
    let mut fee_tiers: Vec<FeeTier> = Vec::new();
    let n = fee_tier_values.len();
    let mut i: usize = 0;
    while i < n
        invariant
            n == fee_tier_values@.len(),
            n == percentages@.len(),
            i <= n,
            fee_tiers@.len() == i,
            forall|k: int| 0 <= k < n ==> calculated_base_fee + #[trigger] fee_tier_values@[k] <= u64::MAX,
            forall|k: int| 0 <= k < i ==> {
                &&& (#[trigger] fee_tiers@[k]).fee == calculated_base_fee + fee_tier_values@[k]
                &&& fee_tiers@[k].percentage == percentages@[k]
            },
        decreases n - i,
    {
        let final_fee = calculated_base_fee + fee_tier_values[i];
        fee_tiers.push(FeeTier::new(final_fee, percentages[i]));
        i = i + 1;
    }
    Ok(fee_tiers)
}

/// The first index at or after `i` whose percentage is 0 or above 100.
pub open spec fn first_bad_percentage(p: Seq<u64>, i: int) -> Option<int>
    decreases p.len() - i,
{
    if i < 0 || i >= p.len() {
        None
    } else if p[i] == 0 || p[i] > 100 {
        Some(i)
    } else {
        first_bad_percentage(p, i + 1)
    }
}

/// The first index at or after `i` whose fee spacing exceeds 1000.
pub open spec fn first_large_spacing(s: Seq<u64>, i: int) -> Option<int>
    decreases s.len() - i,
{
    if i < 0 || i >= s.len() {
        None
    } else if s[i] > 1000 {
        Some(i)
    } else {
        first_large_spacing(s, i + 1)
    }
}

/// The percentages are summed only once the period and lengths passed.
pub open spec fn sums_percentages(a: AssetData) -> bool {
    &&& 1 <= a.unbonding_period <= 365
    &&& a.fee_spacings@.len() > 0
    &&& a.percentages@.len() > 0
    &&& a.fee_spacings@.len() == a.percentages@.len()
}

/// The sum of percentages does not overflow where it is computed.
pub open spec fn percentages_summable(a: AssetData) -> bool {
    sums_percentages(a) ==> seq_sum(a.percentages@) <= u64::MAX
}

/// Why an asset configuration is refused, checked in the contract's order;
/// `None` when it is accepted.
pub open spec fn asset_config_reason(a: AssetData) -> Option<Seq<char>> {
    if a.unbonding_period == 0 || a.unbonding_period > 365 {
        Some("Unbonding period must be between 1 and 365 days, got "@ + decimal(a.unbonding_period as nat))
    } else if a.fee_spacings@.len() == 0 || a.percentages@.len() == 0 {
        Some("Fee spacings and percentages cannot be empty"@)
    } else if a.fee_spacings@.len() != a.percentages@.len() {
        Some("Fee spacings length ("@ + decimal(a.fee_spacings@.len()) + ") must match percentages length ("@
            + decimal(a.percentages@.len()) + ")"@)
    } else if seq_sum(a.percentages@) != 100 {
        Some("Percentages must sum to 100, got "@ + decimal(seq_sum(a.percentages@) as nat))
    } else if first_bad_percentage(a.percentages@, 0) is Some {
        let i = first_bad_percentage(a.percentages@, 0)->0;
        if a.percentages@[i] == 0 {
            Some("Percentage at index "@ + decimal(i as nat) + " cannot be 0"@)
        } else {
            Some("Percentage at index "@ + decimal(i as nat) + " cannot exceed 100, got "@
                + decimal(a.percentages@[i] as nat))
        }
    } else if first_large_spacing(a.fee_spacings@, 0) is Some {
        let i = first_large_spacing(a.fee_spacings@, 0)->0;
        Some("Fee spacing at index "@ + decimal(i as nat) + " is too large ("@
            + decimal(a.fee_spacings@[i] as nat) + "), maximum allowed is 1000"@)
    } else if a.query_period_hours == 0 || a.query_period_hours > 168 {
        Some("Query period must be between 1 and 168 hours, got "@ + decimal(a.query_period_hours as nat))
    } else if a.fee_dempening_amount > 500 {
        Some("Fee dampening amount is too large ("@ + decimal(a.fee_dempening_amount as nat)
            + "), maximum allowed is 500"@)
    } else if is_blank_spec(a.denom@) {
        Some("Asset denom cannot be empty"@)
    } else if is_blank_spec(a.core_contract@) {
        Some("Core contract address cannot be empty"@)
    } else if is_blank_spec(a.vault_address@) {
        Some("Vault address cannot be empty"@)
    } else {
        None
    }
}

/// The outcome `r` carries `reason` as an `InvalidAssetConfig` error, or is
/// `Ok` when there is no reason.
pub open spec fn refused_with(r: ContractResult<()>, reason: Option<Seq<char>>) -> bool {
    match reason {
        Some(why) => r matches Err(ContractError::InvalidAssetConfig { reason: got }) && got@ == why,
        None => r is Ok,
    }
}

proof fn lemma_first_bad_percentage(p: Seq<u64>, i: int, j: int)
    requires
        0 <= i <= j <= p.len(),
        forall|k: int| i <= k < j ==> !(p[k] == 0 || p[k] > 100),
    ensures
        first_bad_percentage(p, i) == first_bad_percentage(p, j),
    decreases j - i,
{
    if i < j {
        lemma_first_bad_percentage(p, i + 1, j);
    }
}

proof fn lemma_first_large_spacing(s: Seq<u64>, i: int, j: int)
    requires
        0 <= i <= j <= s.len(),
        forall|k: int| i <= k < j ==> !(s[k] > 1000),
    ensures
        first_large_spacing(s, i) == first_large_spacing(s, j),
    decreases j - i,
{
    if i < j {
        lemma_first_large_spacing(s, i + 1, j);
    }
}

/// Validate asset configuration
#[verifier::loop_isolation(false)]
pub fn validate_asset_config(asset: &AssetData) -> (r: ContractResult<()>)
    requires
        percentages_summable(*asset),
    ensures
        refused_with(r, asset_config_reason(*asset)),
{
    if asset.unbonding_period == 0 || asset.unbonding_period > 365 {
        return Err(ContractError::InvalidAssetConfig {
            reason: str_num("Unbonding period must be between 1 and 365 days, got ", asset.unbonding_period),
        });
    }
    if asset.fee_spacings.len() == 0 || asset.percentages.len() == 0 {
        return Err(ContractError::InvalidAssetConfig {
            reason: String::from_str("Fee spacings and percentages cannot be empty"),
        });
    }
    if asset.fee_spacings.len() != asset.percentages.len() {
        return Err(ContractError::InvalidAssetConfig {
            reason: str_num_str_num_str(
                "Fee spacings length (",
                asset.fee_spacings.len() as u64,
                ") must match percentages length (",
                asset.percentages.len() as u64,
                ")",
            ),
        });
    }
    let total_percentage = sum_u64(asset.percentages.as_slice());
    if total_percentage != 100 {
        return Err(ContractError::InvalidAssetConfig {
            reason: str_num("Percentages must sum to 100, got ", total_percentage),
        });
    }
    let n = asset.percentages.len();
    let mut i: usize = 0;
    while i < n
        invariant
            n == asset.percentages@.len(),
            i <= n,
            first_bad_percentage(asset.percentages@, 0) == first_bad_percentage(asset.percentages@, i as int),
        decreases n - i,
    {
        let percentage = asset.percentages[i];
        if percentage == 0 || percentage > 100 {
            assert(first_bad_percentage(asset.percentages@, i as int) == Some(i as int));
        }
        if percentage == 0 {
            return Err(ContractError::InvalidAssetConfig {
                reason: str_num_str("Percentage at index ", i as u64, " cannot be 0"),
            });
        }
        if percentage > 100 {
            return Err(ContractError::InvalidAssetConfig {
                reason: str_num_str_num("Percentage at index ", i as u64, " cannot exceed 100, got ", percentage),
            });
        }
        assert(first_bad_percentage(asset.percentages@, i as int) == first_bad_percentage(asset.percentages@, i as int + 1));
        i = i + 1;
    }
    let m = asset.fee_spacings.len();
    let mut j: usize = 0;
    while j < m
        invariant
            m == asset.fee_spacings@.len(),
            j <= m,
            first_large_spacing(asset.fee_spacings@, 0) == first_large_spacing(asset.fee_spacings@, j as int),
            first_bad_percentage(asset.percentages@, 0) is None,
        decreases m - j,
    {
        let spacing = asset.fee_spacings[j];
        if spacing > 1000 {
            assert(first_large_spacing(asset.fee_spacings@, j as int) == Some(j as int));
            return Err(ContractError::InvalidAssetConfig {
                reason: str_num_str_num_str("Fee spacing at index ", j as u64, " is too large (", spacing, "), maximum allowed is 1000"),
            });
        }
        assert(first_large_spacing(asset.fee_spacings@, j as int) == first_large_spacing(asset.fee_spacings@, j as int + 1));
        j = j + 1;
    }
    if asset.query_period_hours == 0 || asset.query_period_hours > 168 {
        return Err(ContractError::InvalidAssetConfig {
            reason: str_num("Query period must be between 1 and 168 hours, got ", asset.query_period_hours),
        });
    }
    if asset.fee_dempening_amount > 500 {
        return Err(ContractError::InvalidAssetConfig {
            reason: str_num_str("Fee dampening amount is too large (", asset.fee_dempening_amount, "), maximum allowed is 500"),
        });
    }
    if is_blank(asset.denom.as_str()) {
        return Err(ContractError::InvalidAssetConfig { reason: String::from_str("Asset denom cannot be empty") });
    }
    if is_blank(asset.core_contract.as_str()) {
        return Err(ContractError::InvalidAssetConfig { reason: String::from_str("Core contract address cannot be empty") });
    }
    if is_blank(asset.vault_address.as_str()) {
        return Err(ContractError::InvalidAssetConfig { reason: String::from_str("Vault address cannot be empty") });
    }
    Ok(())
}

/// The first index at or after `i` whose asset configuration is refused.
pub open spec fn first_refused_asset(a: Seq<AssetData>, i: int) -> Option<int>
    decreases a.len() - i,
{
    if i < 0 || i >= a.len() {
        None
    } else if asset_config_reason(a[i]) is Some {
        Some(i)
    } else {
        first_refused_asset(a, i + 1)
    }
}

/// Asset `j` has the vault address of an earlier asset.
pub open spec fn vault_repeats_earlier(a: Seq<AssetData>, j: int) -> bool {
    exists|i: int| 0 <= i < j && a[i].vault_address@ == a[j].vault_address@
}

/// The first index at or after `j` whose vault address repeats an earlier one.
pub open spec fn first_vault_repeat(a: Seq<AssetData>, j: int) -> Option<int>
    decreases a.len() - j,
{
    if j < 0 || j >= a.len() {
        None
    } else if vault_repeats_earlier(a, j) {
        Some(j)
    } else {
        first_vault_repeat(a, j + 1)
    }
}

/// How an `InvalidAssetConfig` error reads when it is nested in another message.
pub open spec fn asset_error_text(reason: Seq<char>) -> Seq<char> {
    "Invalid asset configuration: "@ + reason
}

/// Why a list of assets is refused, checked in the contract's order.
pub open spec fn assets_reason(a: Seq<AssetData>) -> Option<Seq<char>> {
    if a.len() == 0 {
        Some("At least one asset must be provided"@)
    } else if first_refused_asset(a, 0) is Some {
        let i = first_refused_asset(a, 0)->0;
        Some("Asset "@ + decimal(i as nat) + " validation failed: "@
            + asset_error_text(asset_config_reason(a[i])->0))
    } else if first_vault_repeat(a, 0) is Some {
        let j = first_vault_repeat(a, 0)->0;
        Some("Duplicate vault address found: "@ + a[j].vault_address@)
    } else {
        None
    }
}

/// Every asset that gets validated has percentages that sum without overflow.
pub open spec fn assets_summable(a: Seq<AssetData>) -> bool {
    forall|i: int| 0 <= i < a.len() && (forall|k: int| 0 <= k < i ==> asset_config_reason(#[trigger] a[k]) is None)
        ==> percentages_summable(#[trigger] a[i])
}

proof fn lemma_first_refused_asset(a: Seq<AssetData>, i: int, j: int)
    requires
        0 <= i <= j <= a.len(),
        forall|k: int| i <= k < j ==> asset_config_reason(#[trigger] a[k]) is None,
    ensures
        first_refused_asset(a, i) == first_refused_asset(a, j),
    decreases j - i,
{
    if i < j {
        lemma_first_refused_asset(a, i + 1, j);
    }
}

proof fn lemma_first_vault_repeat(a: Seq<AssetData>, i: int, j: int)
    requires
        0 <= i <= j <= a.len(),
        forall|k: int| i <= k < j ==> !vault_repeats_earlier(a, k),
    ensures
        first_vault_repeat(a, i) == first_vault_repeat(a, j),
    decreases j - i,
{
    if i < j {
        lemma_first_vault_repeat(a, i + 1, j);
    }
}

/// Validate a list of assets
#[verifier::loop_isolation(false)]
pub fn validate_assets(assets: &[AssetData]) -> (r: ContractResult<()>)
    requires
        assets_summable(assets@),
    ensures
        refused_with(r, assets_reason(assets@)),
{
    let n = assets.len();
    if n == 0 {
        return Err(ContractError::InvalidAssetConfig {
            reason: String::from_str("At least one asset must be provided"),
        });
    }
    let mut i: usize = 0;
    while i < n
        invariant
            n == assets@.len(),
            i <= n,
            forall|k: int| 0 <= k < i ==> asset_config_reason(#[trigger] assets@[k]) is None,
        decreases n - i,
    {
        match validate_asset_config(&assets[i]) {
            Ok(()) => {},
            Err(e) => {
                let inner = match e {
                    ContractError::InvalidAssetConfig { reason } => reason,
                    _ => String::new(),
                };
                let text = concat_str("Invalid asset configuration: ", inner.as_str());
                let head = str_num_str("Asset ", i as u64, " validation failed: ");
                let reason = head.concat(text.as_str());
                proof {
                    lemma_first_refused_asset(assets@, 0, i as int);
                    assert(first_refused_asset(assets@, i as int) == Some(i as int));
                }
                return Err(ContractError::InvalidAssetConfig { reason });
            },
        }
        i = i + 1;
    }
    proof {
        lemma_first_refused_asset(assets@, 0, n as int);
    }
    let mut j: usize = 0;
    while j < n
        invariant
            n == assets@.len(),
            j <= n,
            first_refused_asset(assets@, 0) is None,
            forall|k: int| 0 <= k < j ==> !vault_repeats_earlier(assets@, k),
        decreases n - j,
    {
        let mut i: usize = 0;
        while i < j
            invariant
                n == assets@.len(),
                i <= j < n,
                forall|k: int| 0 <= k < i ==> assets@[k].vault_address@ != assets@[j as int].vault_address@,
            decreases j - i,
        {
            if assets[i].vault_address == assets[j].vault_address {
                assert(vault_repeats_earlier(assets@, j as int));
                proof {
                    lemma_first_vault_repeat(assets@, 0, j as int);
                }
                let reason = concat_str("Duplicate vault address found: ", assets[j].vault_address.as_str());
                return Err(ContractError::InvalidAssetConfig { reason });
            }
            i = i + 1;
        }
        j = j + 1;
    }
    proof {
        lemma_first_vault_repeat(assets@, 0, n as int);
    }
    Ok(())
}

/// The first index at or after `i` of a blank address.
pub open spec fn first_blank(v: Seq<String>, i: int) -> Option<int>
    decreases v.len() - i,
{
    if i < 0 || i >= v.len() {
        None
    } else if is_blank_spec(v[i]@) {
        Some(i)
    } else {
        first_blank(v, i + 1)
    }
}

proof fn lemma_first_blank(v: Seq<String>, i: int, j: int)
    requires
        0 <= i <= j <= v.len(),
        forall|k: int| i <= k < j ==> !is_blank_spec(#[trigger] v[k]@),
    ensures
        first_blank(v, i) == first_blank(v, j),
    decreases j - i,
{
    if i < j {
        lemma_first_blank(v, i + 1, j);
    }
}

/// Why a whitelist is refused: empty, or a blank entry (the first is named).
pub open spec fn whitelist_reason(w: Seq<String>) -> Option<Seq<char>> {
    if w.len() == 0 {
        Some("At least one admin must be provided in whitelist"@)
    } else if first_blank(w, 0) is Some {
        Some("Whitelist address at index "@ + decimal(first_blank(w, 0)->0 as nat) + " cannot be empty"@)
    } else {
        None
    }
}

fn validate_whitelist(whitelist: &Vec<String>) -> (r: ContractResult<()>)
    ensures
        refused_with(r, whitelist_reason(whitelist@)),
{
    if whitelist.len() == 0 {
        return Err(ContractError::InvalidAssetConfig {
            reason: String::from_str("At least one admin must be provided in whitelist"),
        });
    }
    let n = whitelist.len();
    let mut i: usize = 0;
    while i < n
        invariant
            n == whitelist@.len(),
            n > 0,
            i <= n,
            forall|k: int| 0 <= k < i ==> !is_blank_spec(#[trigger] whitelist@[k]@),
        decreases n - i,
    {
        if is_blank(whitelist[i].as_str()) {
            proof {
                lemma_first_blank(whitelist@, 0, i as int);
            }
            return Err(ContractError::InvalidAssetConfig {
                reason: str_num_str("Whitelist address at index ", i as u64, " cannot be empty"),
            });
        }
        i = i + 1;
    }
    proof {
        lemma_first_blank(whitelist@, 0, n as int);
    }
    Ok(())
}

/// Why an instantiate message is refused, checked in the contract's order.
pub open spec fn instantiate_reason(msg: InstantiateMsg) -> Option<Seq<char>> {
    if assets_reason(msg.assets@) is Some {
        assets_reason(msg.assets@)
    } else if is_blank_spec(msg.apy_contract@) {
        Some("APY contract address cannot be empty"@)
    } else {
        whitelist_reason(msg.whitelist@)
    }
}

/// Validate instantiate message
pub fn validate_instantiate_msg(msg: &InstantiateMsg) -> (r: ContractResult<()>)
    requires
        assets_summable(msg.assets@),
    ensures
        refused_with(r, instantiate_reason(*msg)),
{
    validate_assets(msg.assets.as_slice())?;
    if is_blank(msg.apy_contract.as_str()) {
        return Err(ContractError::InvalidAssetConfig {
            reason: String::from_str("APY contract address cannot be empty"),
        });
    }
    validate_whitelist(&msg.whitelist)
}

/// Why a configuration update is refused, checked in the contract's order.
pub open spec fn update_config_reason(u: UpdateConfig) -> Option<Seq<char>> {
    if u.new_assets is Some && assets_reason(u.new_assets->0@) is Some {
        assets_reason(u.new_assets->0@)
    } else if u.new_apy_contract is Some && is_blank_spec(u.new_apy_contract->0@) {
        Some("APY contract address cannot be empty"@)
    } else if u.new_whitelist is Some {
        whitelist_reason(u.new_whitelist->0@)
    } else {
        None
    }
}

/// Validate update config message
pub fn validate_update_config(update_config: &UpdateConfig) -> (r: ContractResult<()>)
    requires
        update_config.new_assets matches Some(a) ==> assets_summable(a@),
    ensures
        refused_with(r, update_config_reason(*update_config)),
{
    match &update_config.new_assets {
        Some(new_assets) => {
            validate_assets(new_assets.as_slice())?;
        },
        None => {},
    }
    match &update_config.new_apy_contract {
        Some(new_apy_contract) => {
            if is_blank(new_apy_contract.as_str()) {
                return Err(ContractError::InvalidAssetConfig {
                    reason: String::from_str("APY contract address cannot be empty"),
                });
            }
        },
        None => {},
    }
    match &update_config.new_whitelist {
        Some(new_whitelist) => {
            validate_whitelist(new_whitelist)?;
        },
        None => {},
    }
    Ok(())
}

} // verus!
