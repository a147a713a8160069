use vstd::prelude::*;
use crate::cron_runner::error::{ContractError, ContractResult};
use crate::cron_runner::msg::{ConfigUpdate, ExecuteMsg, InstantiateMsg, MigrateMsg, QueryMsg, VaultListResponse};
use crate::cron_runner::state::Config;
use crate::cron_runner::utils::{
    create_dex_deposit_message, create_dex_withdrawal_message, validate_address,
    validate_vault_addresses, valid_vault_list, none_blank, all_distinct, is_first_blank, is_first_repeat,
};
use crate::mmvault::execute::{attr, attr_is, attributes_are};
use crate::mmvault::msg::Attribute;
use crate::text::{concat_str, decimal, is_blank_spec, usize_to_string};
use crate::wasm::{WasmExecute, is_deposit_call, is_withdrawal_call};

verus! {

/// What a successful execute call asks of the host.
#[derive(Debug, Clone)]
pub enum ExecuteOutcome {
    /// Send these calls, in this order.
    Messages(Vec<WasmExecute>),
    /// Store this configuration.
    ConfigUpdated(Config),
}

/// What a query answers.
#[derive(Debug, Clone)]
pub enum QueryResponse {
    Config(Config),
    VaultList(VaultListResponse),
}

/// Two address lists hold the same strings in the same order.
pub open spec fn same_strings(a: Seq<String>, b: Seq<String>) -> bool {
    a.len() == b.len() && forall|i: int| 0 <= i < a.len() ==> a[i]@ == b[i]@
}

/// The configuration an instantiate message describes.
pub open spec fn config_of(msg: InstantiateMsg, c: Config) -> bool {
    &&& same_strings(c.vault_addresses@, msg.vault_addresses@)
    &&& c.cron_address@ == msg.cron_address@
    &&& c.admin_address@ == msg.admin_address@
}

/// An instantiate message passes the contract's own checks.
pub open spec fn valid_instantiate(msg: InstantiateMsg) -> bool {
    &&& valid_vault_list(msg.vault_addresses@)
    &&& !is_blank_spec(msg.cron_address@)
    &&& !is_blank_spec(msg.admin_address@)
}

fn clone_strings(v: &Vec<String>) -> (r: Vec<String>)
    ensures
        same_strings(r@, v@),
{
    let mut r: Vec<String> = Vec::new();
    let mut i: usize = 0;
    while i < v.len()
        invariant
            i <= v@.len(),
            r@.len() == i,
            forall|k: int| 0 <= k < i ==> r@[k]@ == v@[k]@,
        decreases v@.len() - i,
    {
        r.push(v[i].clone());
        i = i + 1;
    }
    r
}

/// Checks an instantiate message and builds the configuration to store.
/// The host then validates each address and stores the configuration.
pub fn instantiate(msg: &InstantiateMsg) -> (r: ContractResult<Config>)
    ensures
        r is Ok <==> valid_instantiate(*msg),
        r matches Ok(c) ==> config_of(*msg, c),
        msg.vault_addresses@.len() == 0 ==> r matches Err(ContractError::NoVaultsConfigured),
        msg.vault_addresses@.len() > 0 && !none_blank(msg.vault_addresses@) ==> (r matches Err(
            ContractError::InvalidVaultAddress { addr },
        ) && exists|i: int| is_first_blank(msg.vault_addresses@, i) && addr@ == "address at index "@ + decimal(i as nat)),
        msg.vault_addresses@.len() > 0 && none_blank(msg.vault_addresses@) && !all_distinct(msg.vault_addresses@) ==> (
        r matches Err(ContractError::DuplicateVaultAddress { addr }) && exists|j: int|
            is_first_repeat(msg.vault_addresses@, j) && addr@ == msg.vault_addresses@[j]@),
        valid_vault_list(msg.vault_addresses@) && is_blank_spec(msg.cron_address@) ==>
            (r matches Err(ContractError::EmptyValue { kind }) && kind@ == "cron_address"@),
        valid_vault_list(msg.vault_addresses@) && !is_blank_spec(msg.cron_address@)
            && is_blank_spec(msg.admin_address@) ==>
            (r matches Err(ContractError::EmptyValue { kind }) && kind@ == "admin_address"@),
{
    validate_vault_addresses(msg.vault_addresses.as_slice())?;
    validate_address(msg.cron_address.as_str(), "cron_address")?;
    validate_address(msg.admin_address.as_str(), "admin_address")?;
    Ok(Config {
        vault_addresses: clone_strings(&msg.vault_addresses),
        cron_address: msg.cron_address.clone(),
        admin_address: msg.admin_address.clone(),
    })
}

/// The calls a rebalancing sends: for every vault, in order, a withdrawal
/// followed by a deposit.
pub open spec fn rebalancing_calls(vaults: Seq<String>, msgs: Seq<WasmExecute>) -> bool {
    &&& msgs.len() == 2 * vaults.len()
    &&& forall|i: int| 0 <= i < vaults.len() ==> {
        &&& is_withdrawal_call(#[trigger] msgs[2 * i], vaults[i]@)
        &&& is_deposit_call(msgs[2 * i + 1], vaults[i]@)
    }
}

/// Execute the main rebalancing function - calls dex_withdrawal and dex_deposit on all vaults.
/// Only the cron address or the admin address may call it.
pub fn execute_run_rebalancing(config: &Config, sender: &String) -> (r: ContractResult<Vec<WasmExecute>>)
    ensures
        r is Ok <==> (sender@ == config.cron_address@ || sender@ == config.admin_address@),
        r matches Err(e) ==> e is Unauthorized,
        r matches Ok(msgs) ==> rebalancing_calls(config.vault_addresses@, msgs@),
{
    if *sender != config.cron_address && *sender != config.admin_address {
        return Err(ContractError::Unauthorized);
    }
    let mut messages: Vec<WasmExecute> = Vec::new();
    let n = config.vault_addresses.len();
    let mut i: usize = 0;
    while i < n
        invariant
            n == config.vault_addresses@.len(),
            i <= n,
            messages@.len() == 2 * i,
            forall|k: int| 0 <= k < i ==> {
                &&& is_withdrawal_call(#[trigger] messages@[2 * k], config.vault_addresses@[k]@)
                &&& is_deposit_call(messages@[2 * k + 1], config.vault_addresses@[k]@)
            },
        decreases n - i,
    {
        let vault_address = &config.vault_addresses[i];
        let withdrawal_msg = match create_dex_withdrawal_message(vault_address) {
            Ok(m) => m,
            Err(_) => {
                return Err(ContractError::MessageCreationError {
                    vault: vault_address.clone(),
                    reason: String::from_str("withdrawal"),
                });
            },
        };
        let deposit_msg = match create_dex_deposit_message(vault_address) {
            Ok(m) => m,
            Err(_) => {
                return Err(ContractError::MessageCreationError {
                    vault: vault_address.clone(),
                    reason: String::from_str("deposit"),
                });
            },
        };
        let ghost before = messages@;
        messages.push(withdrawal_msg);
        messages.push(deposit_msg);
        assert forall|k: int| 0 <= k < i + 1 implies {
            &&& is_withdrawal_call(#[trigger] messages@[2 * k], config.vault_addresses@[k]@)
            &&& is_deposit_call(messages@[2 * k + 1], config.vault_addresses@[k]@)
        } by {
            if k < i {
                assert(messages@[2 * k] == before[2 * k]);
                assert(messages@[2 * k + 1] == before[2 * k + 1]);
            }
        }
        i = i + 1;
    }
    assert(rebalancing_calls(config.vault_addresses@, messages@));
    Ok(messages)
}

/// The configuration after an update: each provided field replaces the old one.
pub open spec fn updated_config(old: Config, u: ConfigUpdate, new: Config) -> bool {
    &&& match u.vault_addresses {
        Some(v) => same_strings(new.vault_addresses@, v@),
        None => same_strings(new.vault_addresses@, old.vault_addresses@),
    }
    &&& new.cron_address@ == (match u.cron_address { Some(c) => c@, None => old.cron_address@ })
    &&& new.admin_address@ == (match u.admin_address { Some(a) => a@, None => old.admin_address@ })
}

/// An update passes the contract's own checks.
pub open spec fn valid_update(u: ConfigUpdate) -> bool {
    &&& (u.vault_addresses matches Some(v) ==> valid_vault_list(v@))
    &&& (u.cron_address matches Some(c) ==> !is_blank_spec(c@))
    &&& (u.admin_address matches Some(a) ==> !is_blank_spec(a@))
}

/// Update the contract configuration (admin-only)
pub fn execute_update_config(config: &Config, sender: &String, new_config: ConfigUpdate) -> (r: ContractResult<Config>)
    ensures
        r is Ok <==> (sender@ == config.admin_address@ && valid_update(new_config)),
        sender@ != config.admin_address@ ==> r matches Err(ContractError::Unauthorized),
        r matches Ok(c) ==> updated_config(*config, new_config, c),
        sender@ == config.admin_address@ ==> match new_config.vault_addresses {
            Some(v) => {
                &&& (v@.len() == 0 ==> r matches Err(ContractError::NoVaultsConfigured))
                &&& (v@.len() > 0 && !none_blank(v@) ==> (r matches Err(ContractError::InvalidVaultAddress { addr })
                    && exists|i: int| is_first_blank(v@, i) && addr@ == "address at index "@ + decimal(i as nat)))
                &&& (v@.len() > 0 && none_blank(v@) && !all_distinct(v@) ==> (r matches Err(
                    ContractError::DuplicateVaultAddress { addr },
                ) && exists|j: int| is_first_repeat(v@, j) && addr@ == v@[j]@))
            },
            None => true,
        },
{
    if *sender != config.admin_address {
        return Err(ContractError::Unauthorized);
    }
    let mut result = Config {
        vault_addresses: clone_strings(&config.vault_addresses),
        cron_address: config.cron_address.clone(),
        admin_address: config.admin_address.clone(),
    };
    match &new_config.vault_addresses {
        Some(v) => {
            validate_vault_addresses(v.as_slice())?;
            result.vault_addresses = clone_strings(v);
        },
        None => {},
    }
    match &new_config.cron_address {
        Some(c) => {
            validate_address(c.as_str(), "cron_address")?;
            result.cron_address = c.clone();
        },
        None => {},
    }
    match &new_config.admin_address {
        Some(a) => {
            validate_address(a.as_str(), "admin_address")?;
            result.admin_address = a.clone();
        },
        None => {},
    }
    Ok(result)
}

/// Dispatches an execute message for `sender` against the stored configuration.
pub fn execute(config: &Config, sender: &String, msg: ExecuteMsg) -> (r: ContractResult<ExecuteOutcome>)
    ensures
        msg matches ExecuteMsg::RunRebalancing {} ==> (r is Ok <==> (sender@ == config.cron_address@
            || sender@ == config.admin_address@)),
        msg matches ExecuteMsg::RunRebalancing {} && r is Ok ==> (r matches Ok(ExecuteOutcome::Messages(msgs))
            && rebalancing_calls(config.vault_addresses@, msgs@)),
        msg matches ExecuteMsg::UpdateConfig { new_config } ==> (r is Ok <==> (sender@ == config.admin_address@
            && valid_update(new_config))),
        msg matches ExecuteMsg::UpdateConfig { new_config } ==> (r is Ok ==> (r matches Ok(ExecuteOutcome::ConfigUpdated(c))
            && updated_config(*config, new_config, c))),
{
    match msg {
        ExecuteMsg::RunRebalancing {} => {
            let msgs = execute_run_rebalancing(config, sender)?;
            Ok(ExecuteOutcome::Messages(msgs))
        },
        ExecuteMsg::UpdateConfig { new_config } => {
            let c = execute_update_config(config, sender, new_config)?;
            Ok(ExecuteOutcome::ConfigUpdated(c))
        },
    }
}

/// Answers a query from the stored configuration.
pub fn query(config: &Config, msg: &QueryMsg) -> (r: ContractResult<QueryResponse>)
    ensures
        msg matches QueryMsg::GetConfig {} ==> (r matches Ok(QueryResponse::Config(c))
            && same_strings(c.vault_addresses@, config.vault_addresses@)
            && c.cron_address@ == config.cron_address@ && c.admin_address@ == config.admin_address@),
        msg matches QueryMsg::GetVaultList {} ==> (r matches Ok(QueryResponse::VaultList(l))
            && same_strings(l.vault_addresses@, config.vault_addresses@)),
{
    match msg {
        QueryMsg::GetConfig {} => Ok(QueryResponse::Config(Config {
            vault_addresses: clone_strings(&config.vault_addresses),
            cron_address: config.cron_address.clone(),
            admin_address: config.admin_address.clone(),
        })),
        QueryMsg::GetVaultList {} => Ok(QueryResponse::VaultList(VaultListResponse {
            vault_addresses: clone_strings(&config.vault_addresses),
        })),
    }
}

/// The configuration after a migration: the one the message carries, if any.
pub fn migrate(current: Config, msg: MigrateMsg) -> (r: Config)
    ensures
        r == (match msg.new_config { Some(c) => c, None => current }),
{
    match msg.new_config {
        Some(c) => c,
        None => current,
    }
}

/// What a rebalancing reports: the action, the number of vaults and the
/// caller, then, for each vault, that it is withdrawn and deposited again.
pub open spec fn rebalancing_entries(vaults: Seq<String>, sender: Seq<char>) -> Seq<(Seq<char>, Seq<char>)> {
    seq![("action"@, "run_rebalancing"@), ("vault_count"@, decimal(vaults.len())), ("caller"@, sender)]
        + Seq::new(vaults.len(), |i: int| ("vault_"@ + vaults[i]@, "withdrawal_and_deposit"@))
}

/// The attributes of a rebalancing run by `sender`.
pub fn rebalancing_attributes(config: &Config, sender: &String) -> (r: Vec<Attribute>)
    ensures
        attributes_are(r@, rebalancing_entries(config.vault_addresses@, sender@)),
{
    let ghost entries = rebalancing_entries(config.vault_addresses@, sender@);
    let mut attrs: Vec<Attribute> = Vec::new();
    attrs.push(attr("action", String::from_str("run_rebalancing")));
    attrs.push(attr("vault_count", usize_to_string(config.vault_addresses.len())));
    attrs.push(attr("caller", sender.clone()));
    proof {
        reveal_strlit("run_rebalancing");
        assert(attributes_are(attrs@, entries.take(3)));
    }
    let n = config.vault_addresses.len();
    let mut i: usize = 0;
    while i < n
        invariant
            n == config.vault_addresses@.len(),
            entries == rebalancing_entries(config.vault_addresses@, sender@),
            entries.len() == 3 + n,
            i <= n,
            attributes_are(attrs@, entries.take(3 + i)),
        decreases n - i,
    {
        let key = concat_str("vault_", config.vault_addresses[i].as_str());
        let ghost before = attrs@;
        attrs.push(Attribute { key, value: String::from_str("withdrawal_and_deposit") });
        proof {
            reveal_strlit("withdrawal_and_deposit");
            assert forall|k: int| 0 <= k < 3 + i + 1 implies attr_is(
                #[trigger] attrs@[k],
                entries.take(3 + i + 1)[k].0,
                entries.take(3 + i + 1)[k].1,
            ) by {
                if k < 3 + i {
                    assert(attrs@[k] == before[k]);
                    assert(attr_is(before[k], entries.take(3 + i)[k].0, entries.take(3 + i)[k].1));
                }
            }
        }
        i = i + 1;
    }
    proof {
        assert(entries.take(3 + n) =~= entries);
    }
    attrs
}

/// What a configuration update reports: the action, then, for each field
/// given, its new value (for the vaults, their number and that they changed).
pub open spec fn update_entries(u: ConfigUpdate, c: Config) -> Seq<(Seq<char>, Seq<char>)> {
    seq![("action"@, "update_config"@)] + (if u.vault_addresses is Some {
        seq![("vault_count"@, decimal(c.vault_addresses@.len())), ("updated_vaults"@, "true"@)]
    } else {
        Seq::empty()
    }) + (if u.cron_address is Some {
        seq![("new_cron_address"@, c.cron_address@)]
    } else {
        Seq::empty()
    }) + (if u.admin_address is Some {
        seq![("new_admin_address"@, c.admin_address@)]
    } else {
        Seq::empty()
    })
}

/// The attributes of the update `u` that produced the configuration `c`.
pub fn update_config_attributes(u: &ConfigUpdate, c: &Config) -> (r: Vec<Attribute>)
    ensures
        attributes_are(r@, update_entries(*u, *c)),
{
    let mut attrs: Vec<Attribute> = Vec::new();
    attrs.push(attr("action", String::from_str("update_config")));
    if u.vault_addresses.is_some() {
        attrs.push(attr("vault_count", usize_to_string(c.vault_addresses.len())));
        attrs.push(attr("updated_vaults", String::from_str("true")));
    }
    if u.cron_address.is_some() {
        attrs.push(attr("new_cron_address", c.cron_address.clone()));
    }
    if u.admin_address.is_some() {
        attrs.push(attr("new_admin_address", c.admin_address.clone()));
    }
    proof {
        reveal_strlit("update_config");
        reveal_strlit("true");
        assert(attributes_are(attrs@, update_entries(*u, *c)));
    }
    attrs
}

} // verus!
