use vstd::prelude::*;
use crate::mmvault::error::{ContractError, ContractResult};
use crate::mmvault::msg::denom_reason;
use crate::owner_vault::state::TokenData;

verus! {

/// What instantiating the vault asks for.
#[derive(Debug, Clone)]
pub struct InstantiateMsg {
    pub owner: String,
    pub token_a: TokenData,
    pub token_b: TokenData,
    pub max_block_old: u64,
    pub base_fee: u64,
    pub base_deposit_percentage: u64,
    pub ambient_fee: u64,
    pub deposit_ambient: bool,
    pub deposit_cap: u128,
}

/// The fees the DEX offers for the base deposit.
pub open spec fn allowed_fee(fee: u64) -> bool {
    fee == 0 || fee == 1 || fee == 2 || fee == 3 || fee == 4 || fee == 5 || fee == 10 || fee == 20 || fee == 50
        || fee == 100 || fee == 150 || fee == 200
}

impl InstantiateMsg {
    /// The first field found empty, by the name the error gives it.
    pub open spec fn empty_kind(self) -> Option<Seq<char>> {
        if self.owner@.len() == 0 {
            Some("beneficiary"@)
        } else if self.token_a.denom@.len() == 0 {
            Some("token_a denom"@)
        } else if self.token_b.denom@.len() == 0 {
            Some("token_b denom"@)
        } else if self.token_a.pair.base@.len() == 0 {
            Some("token_a symbol (base)"@)
        } else if self.token_b.pair.base@.len() == 0 {
            Some("token_b symbol (base)"@)
        } else {
            None
        }
    }

    /// The checks `validate` runs, in order, pass.
    pub open spec fn is_valid(self) -> bool {
        &&& self.empty_kind() is None
        &&& self.max_block_old > 0
        &&& denom_reason(self.token_a.denom@) is None
        &&& denom_reason(self.token_b.denom@) is None
        &&& allowed_fee(self.base_fee)
        &&& self.base_deposit_percentage <= 100
        &&& !(self.token_a.pair.quote@ == self.token_b.pair.quote@ && self.token_b.pair.quote@ != "USD"@)
    }

    /// Checks an instantiate message: no empty field, a staleness window of
    /// at least one block, well-formed IBC denoms, an offered base fee, a
    /// base percentage of at most 100, and USD as the quote when both quotes
    /// are the same.
    pub fn validate(&self) -> (r: ContractResult<()>)
        ensures
            r is Ok <==> self.is_valid(),
            self.empty_kind() matches Some(kind) ==> (r matches Err(ContractError::EmptyValue { kind: k }) && k@ == kind),
            self.empty_kind() is None && self.max_block_old == 0 ==> (r matches Err(ContractError::MalformedInput { input, reason })
                && input@ == "max_block_stale"@ && reason@ == "must be >=1"@),
            self.empty_kind() is None && self.max_block_old > 0 ==> (denom_reason(self.token_a.denom@) matches Some(why) ==> (
            r matches Err(ContractError::InvalidIbcDenom { denom, reason }) && denom@ == self.token_a.denom@ && reason@ == why)),
            self.empty_kind() is None && self.max_block_old > 0 && denom_reason(self.token_a.denom@) is None ==> (denom_reason(
                self.token_b.denom@,
            ) matches Some(why) ==> (r matches Err(ContractError::InvalidIbcDenom { denom, reason }) && denom@ == self.token_b.denom@
                && reason@ == why)),
            self.empty_kind() is None && self.max_block_old > 0 && denom_reason(self.token_a.denom@) is None && denom_reason(
                self.token_b.denom@,
            ) is None && !allowed_fee(self.base_fee) ==> r == Err::<(), ContractError>(
                ContractError::InvalidBaseFee { fee: self.base_fee },
            ),
            self.empty_kind() is None && self.max_block_old > 0 && denom_reason(self.token_a.denom@) is None && denom_reason(
                self.token_b.denom@,
            ) is None && allowed_fee(self.base_fee) && self.base_deposit_percentage > 100 ==> r == Err::<(), ContractError>(
                ContractError::InvalidDepositPercentage { percentage: self.base_deposit_percentage },
            ),
    {
        crate::mmvault::msg::InstantiateMsg::check_nonempty(self.owner.clone(), String::from_str("beneficiary"))?;
        crate::mmvault::msg::InstantiateMsg::check_nonempty(self.token_a.denom.clone(), String::from_str("token_a denom"))?;
        crate::mmvault::msg::InstantiateMsg::check_nonempty(self.token_b.denom.clone(), String::from_str("token_b denom"))?;
        crate::mmvault::msg::InstantiateMsg::check_nonempty(
            self.token_a.pair.base.clone(),
            String::from_str("token_a symbol (base)"),
        )?;
        crate::mmvault::msg::InstantiateMsg::check_nonempty(
            self.token_b.pair.base.clone(),
            String::from_str("token_b symbol (base)"),
        )?;
        if self.max_block_old == 0 {
            return Err(ContractError::MalformedInput {
                input: String::from_str("max_block_stale"),
                reason: String::from_str("must be >=1"),
            });
        }
        crate::mmvault::msg::InstantiateMsg::validate_denom(self.token_a.denom.as_str())?;
        crate::mmvault::msg::InstantiateMsg::validate_denom(self.token_b.denom.as_str())?;
        Self::validate_base_fee(self.base_fee)?;
        Self::validate_base_deposit_percentage(self.base_deposit_percentage)?;
        let usd = String::from_str("USD");
        if self.token_a.pair.quote == self.token_b.pair.quote && self.token_b.pair.quote != usd {
            return Err(ContractError::OnlySupportUsdQuote {
                quote0: self.token_a.pair.quote.clone(),
                quote1: self.token_b.pair.quote.clone(),
            });
        }
        Ok(())
    }

    /// The base fee must be one the DEX offers.
    pub fn validate_base_fee(fee: u64) -> (r: ContractResult<()>)
        ensures
            allowed_fee(fee) ==> r is Ok,
            !allowed_fee(fee) ==> r == Err::<(), ContractError>(ContractError::InvalidBaseFee { fee }),
    {
        let allowed_fees: [u64; 12] = [0, 1, 2, 3, 4, 5, 10, 20, 50, 100, 150, 200];
        let mut i: usize = 0;
        while i < 12
            invariant
                i <= 12,
                allowed_fees@ == seq![0u64, 1, 2, 3, 4, 5, 10, 20, 50, 100, 150, 200],
                forall|k: int| 0 <= k < i ==> allowed_fees@[k] != fee,
            decreases 12 - i,
        {
            if allowed_fees[i] == fee {
                return Ok(());
            }
            i = i + 1;
        }
        proof {
            assert(!allowed_fee(fee)) by {
                assert(allowed_fees@[0] != fee && allowed_fees@[1] != fee && allowed_fees@[2] != fee);
                assert(allowed_fees@[3] != fee && allowed_fees@[4] != fee && allowed_fees@[5] != fee);
                assert(allowed_fees@[6] != fee && allowed_fees@[7] != fee && allowed_fees@[8] != fee);
                assert(allowed_fees@[9] != fee && allowed_fees@[10] != fee && allowed_fees@[11] != fee);
            }
        }
        Err(ContractError::InvalidBaseFee { fee })
    }

    /// The base deposit percentage is at most 100.
    pub fn validate_base_deposit_percentage(percentage: u64) -> (r: ContractResult<()>)
        ensures
            percentage <= 100 ==> r is Ok,
            percentage > 100 ==> r == Err::<(), ContractError>(ContractError::InvalidDepositPercentage { percentage }),
    {
        if percentage > 100 {
            return Err(ContractError::InvalidDepositPercentage { percentage });
        }
        Ok(())
    }
}

#[derive(Debug, Clone)]
pub enum ExecuteMsg {
    Deposit {},
    Withdraw {},
    DexDeposit {},
    DexWithdrawal {},
}

} // verus!
