//! Contracts offered to the agent, and which of them to accept.

use vstd::prelude::*;

verus! {

/// A delivery obligation within a contract's terms.
#[derive(Debug)]
pub struct Delivery {
    pub destination_symbol: String,
    pub trade_symbol: String,
    pub units_fulfilled: u64,
    pub units_required: u64,
}

/// What a contract pays, on acceptance and on fulfilment.
#[derive(Debug)]
pub struct Payment {
    pub payment_on_accepted: u64,
    pub payment_on_fulfilled: u64,
}

/// A contract's terms.
#[derive(Debug)]
pub struct Terms {
    pub deadline: String,
    pub deliveries: Vec<Delivery>,
    pub payment: Payment,
}

/// A contract offered by a faction.
#[derive(Debug)]
pub struct Contract {
    pub accepted: bool,
    pub deadline_to_accept: String,
    pub expiration_date: String,
    pub faction_symbol: String,
    pub fulfilled: bool,
    pub id: String,
    pub terms: Terms,
    pub contract_type: String,
}

/// Paging information of a listing.
#[derive(Debug, Clone, Copy)]
pub struct Meta {
    pub limit: u32,
    pub page: u32,
    pub total: u32,
}

/// A page of contracts.
#[derive(Debug)]
pub struct ContractResponse {
    pub data: Vec<Contract>,
    pub meta: Meta,
}

/// The ids of the contracts not yet accepted, in listing order.
pub open spec fn unaccepted_ids(cs: Seq<Contract>) -> Seq<Seq<char>>
    decreases cs.len(),
{
    if cs.len() == 0 {
        seq![]
    } else {
        let rest = unaccepted_ids(cs.drop_last());
        if cs.last().accepted {
            rest
        } else {
            rest.push(cs.last().id@)
        }
    }
}

/// The ids of the contracts to accept: every one not yet accepted, in
/// listing order.
pub fn contracts_to_accept(contracts: &Vec<Contract>) -> (r: Vec<String>)
    ensures
        r@.map_values(|s: String| s@) == unaccepted_ids(contracts@),
{
    let mut out: Vec<String> = Vec::new();
    let mut i: usize = 0;
    while i < contracts.len()
        invariant
            0 <= i <= contracts@.len(),
            out@.map_values(|s: String| s@) == unaccepted_ids(contracts@.take(i as int)),
        decreases contracts@.len() - i,
    {
        proof {
            assert(contracts@.take(i + 1).drop_last() =~= contracts@.take(i as int));
        }
        if !contracts[i].accepted {
            let id = contracts[i].id.clone();
            out.push(id);
            assert(out@.map_values(|s: String| s@) =~= out@.drop_last().map_values(
                |s: String| s@,
            ).push(id@));
        }
        i = i + 1;
    }
    assert(contracts@.take(i as int) =~= contracts@);
    out
}

} // verus!
