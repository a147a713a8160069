use vstd::prelude::*;
use crate::cron_runner::error::{ContractError, ContractResult};
use crate::text::{is_blank, is_blank_spec, decimal, usize_to_string, concat_str};
use crate::wasm::{WasmExecute, dex_withdrawal_body, dex_deposit_body, is_withdrawal_call, is_deposit_call};

verus! {

/// Index `i` is the first blank address.
pub open spec fn is_first_blank(v: Seq<String>, i: int) -> bool {
    &&& 0 <= i < v.len()
    &&& is_blank_spec(v[i]@)
    &&& forall|k: int| 0 <= k < i ==> !is_blank_spec(#[trigger] v[k]@)
}

/// Index `j` repeats an earlier address.
pub open spec fn repeats_earlier(v: Seq<String>, j: int) -> bool {
    exists|i: int| 0 <= i < j && v[i]@ == v[j]@
}

/// Index `j` is the first index that repeats an earlier address.
pub open spec fn is_first_repeat(v: Seq<String>, j: int) -> bool {
    &&& 0 <= j < v.len()
    &&& repeats_earlier(v, j)
    &&& forall|k: int| 0 <= k < j ==> !#[trigger] repeats_earlier(v, k)
}

/// All addresses are pairwise distinct.
pub open spec fn all_distinct(v: Seq<String>) -> bool {
    forall|i: int, j: int| 0 <= i < j < v.len() ==> v[i]@ != v[j]@
}

/// No address is blank.
pub open spec fn none_blank(v: Seq<String>) -> bool {
    forall|i: int| 0 <= i < v.len() ==> !is_blank_spec(#[trigger] v[i]@)
}

/// A valid vault list: non-empty, no blank entry, no repeated entry.
pub open spec fn valid_vault_list(v: Seq<String>) -> bool {
    v.len() > 0 && none_blank(v) && all_distinct(v)
}

/// Create a dex_withdrawal message for a vault contract
pub fn create_dex_withdrawal_message(vault_address: &String) -> (r: ContractResult<WasmExecute>)
    ensures
        r matches Ok(m) && is_withdrawal_call(m, vault_address@),
{
    Ok(WasmExecute { contract_addr: vault_address.clone(), msg: dex_withdrawal_body() })
}

/// Create a dex_deposit message for a vault contract
pub fn create_dex_deposit_message(vault_address: &String) -> (r: ContractResult<WasmExecute>)
    ensures
        r matches Ok(m) && is_deposit_call(m, vault_address@),
{
    Ok(WasmExecute { contract_addr: vault_address.clone(), msg: dex_deposit_body() })
}

/// Validate vault addresses to ensure they are unique and non-empty.
/// Checks run in order: the list is non-empty, then no entry is blank (the
/// first blank one is reported by index), then no entry repeats an earlier one
/// (the first repeat is reported).
pub fn validate_vault_addresses(vault_addresses: &[String]) -> (r: ContractResult<()>)
    ensures
        r is Ok <==> valid_vault_list(vault_addresses@),
        r matches Err(ContractError::NoVaultsConfigured) ==> vault_addresses@.len() == 0,
        r matches Err(ContractError::InvalidVaultAddress { addr }) ==> (vault_addresses@.len() > 0
            && exists|i: int| is_first_blank(vault_addresses@, i)
                && addr@ == "address at index "@ + decimal(i as nat)),
        r matches Err(ContractError::DuplicateVaultAddress { addr }) ==> (vault_addresses@.len() > 0
            && none_blank(vault_addresses@)
            && exists|j: int| is_first_repeat(vault_addresses@, j) && addr@ == vault_addresses@[j]@),
        r is Err ==> (r matches Err(ContractError::NoVaultsConfigured)
            || r matches Err(ContractError::InvalidVaultAddress { .. })
            || r matches Err(ContractError::DuplicateVaultAddress { .. })),
{
    let n = vault_addresses.len();
    if n == 0 {
        return Err(ContractError::NoVaultsConfigured);
    }
    let mut i: usize = 0;
    while i < n
        invariant
            n == vault_addresses@.len(),
            i <= n,
            forall|k: int| 0 <= k < i ==> !is_blank_spec(#[trigger] vault_addresses@[k]@),
        decreases n - i,
    {
        if is_blank(vault_addresses[i].as_str()) {
            let idx = usize_to_string(i);
            let addr = concat_str("address at index ", idx.as_str());
            assert(is_first_blank(vault_addresses@, i as int));
            return Err(ContractError::InvalidVaultAddress { addr });
        }
        i = i + 1;
    }
    let mut j: usize = 0;
    while j < n
        invariant
            n == vault_addresses@.len(),
            j <= n,
            none_blank(vault_addresses@),
            forall|k: int| 0 <= k < j ==> !#[trigger] repeats_earlier(vault_addresses@, k),
        decreases n - j,
    {
        let mut i: usize = 0;
        while i < j
            invariant
                n == vault_addresses@.len(),
                i <= j < n,
                none_blank(vault_addresses@),
                forall|k: int| 0 <= k < j ==> !#[trigger] repeats_earlier(vault_addresses@, k),
                forall|k: int| 0 <= k < i ==> vault_addresses@[k]@ != vault_addresses@[j as int]@,
            decreases j - i,
        {
            if vault_addresses[i] == vault_addresses[j] {
                assert(repeats_earlier(vault_addresses@, j as int));
                assert(is_first_repeat(vault_addresses@, j as int));
                return Err(ContractError::DuplicateVaultAddress { addr: vault_addresses[j].clone() });
            }
            i = i + 1;
        }
        assert(!repeats_earlier(vault_addresses@, j as int));
        j = j + 1;
    }
    assert forall|a: int, b: int| 0 <= a < b < vault_addresses@.len() implies
        vault_addresses@[a]@ != vault_addresses@[b]@ by {
        assert(!repeats_earlier(vault_addresses@, b));
    }
    Ok(())
}

/// Validate a single address string is not empty (after trimming white space)
pub fn validate_address(address: &str, field_name: &str) -> (r: ContractResult<()>)
    ensures
        r is Ok <==> !is_blank_spec(address@),
        r matches Err(e) ==> (e matches ContractError::EmptyValue { kind } && kind@ == field_name@),
{
    if is_blank(address) {
        return Err(ContractError::EmptyValue { kind: String::from_str(field_name) });
    }
    Ok(())
}

} // verus!
