//! Plain descriptions of the contract calls the rebalancers send to vaults.
//! The host side turns each into a `WasmMsg::Execute` with no funds.

use vstd::prelude::*;

verus! {

/// An execute call on another contract: its address and the JSON body.
#[derive(Clone, Debug)]
pub struct WasmExecute {
    pub contract_addr: String,
    pub msg: Vec<u8>,
}

/// The JSON body `{"dex_withdrawal":{}}`.
pub open spec fn dex_withdrawal_json() -> Seq<u8> {
    seq![123u8, 34, 100, 101, 120, 95, 119, 105, 116, 104, 100, 114, 97, 119, 97, 108, 34, 58, 123, 125, 125]
}

/// The JSON body `{"dex_deposit":{}}`.
pub open spec fn dex_deposit_json() -> Seq<u8> {
    seq![123u8, 34, 100, 101, 120, 95, 100, 101, 112, 111, 115, 105, 116, 34, 58, 123, 125, 125]
}

/// The body of a `dex_withdrawal` call.
pub fn dex_withdrawal_body() -> (r: Vec<u8>)
    ensures
        r@ == dex_withdrawal_json(),
{
    let r = vec![123u8, 34, 100, 101, 120, 95, 119, 105, 116, 104, 100, 114, 97, 119, 97, 108, 34, 58, 123, 125, 125];
    assert(r@ =~= dex_withdrawal_json());
    r
}

/// The body of a `dex_deposit` call.
pub fn dex_deposit_body() -> (r: Vec<u8>)
    ensures
        r@ == dex_deposit_json(),
{
    let r = vec![123u8, 34, 100, 101, 120, 95, 100, 101, 112, 111, 115, 105, 116, 34, 58, 123, 125, 125];
    assert(r@ =~= dex_deposit_json());
    r
}

/// A call of `dex_withdrawal` on `addr`.
pub open spec fn is_withdrawal_call(m: WasmExecute, addr: Seq<char>) -> bool {
    m.contract_addr@ == addr && m.msg@ == dex_withdrawal_json()
}

/// A call of `dex_deposit` on `addr`.
pub open spec fn is_deposit_call(m: WasmExecute, addr: Seq<char>) -> bool {
    m.contract_addr@ == addr && m.msg@ == dex_deposit_json()
}

} // verus!
