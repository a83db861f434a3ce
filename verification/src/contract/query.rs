//! The questions that read the ledger and change nothing.

use vstd::prelude::*;
use crate::error::ContractError;
use crate::ledger::{lemma_listed_total_grows, lemma_listing_total, listed_total, total};
use crate::msg::{
    GetAllDepositResponse, GetDepositResponse, GetStateResponse, GetTotalDepositResponse,
};
use crate::state::{entry_pairs, list_balances, lists_balances, load_balance, load_config, Deps};

verus! {

/// The allowed denomination. It fails, with the store's error, exactly
/// where the store holds no readable denomination.
pub fn state(deps: &Deps) -> (r: Result<GetStateResponse, ContractError>)
    ensures
        match r {
            Ok(response) => deps.denom() == Some(response.allowed_denom@),
            Err(ContractError::Std(_)) => deps.denom() is None,
            Err(_) => false,
        },
{
    match load_config(deps) {
        Ok(config) => Ok(GetStateResponse { allowed_denom: config.allowed_denom }),
        Err(e) => Err(ContractError::Std(e)),
    }
}

/// The balance of `owner`. It succeeds exactly where `owner` has a readable
/// entry, be it zero. An account that has never deposited is `NotFound`,
/// and an entry that the store cannot read is the store's error.
pub fn deposit(deps: &Deps, owner: String) -> (r: Result<GetDepositResponse, ContractError>)
    ensures
        match r {
            Ok(response) => response.address@ == owner@ && deps.balances().contains_pair(
                owner@,
                response.deposit,
            ),
            Err(ContractError::Std(_)) => deps.unreadable().contains(owner@),
            Err(ContractError::NotFound {}) => !deps.balances().contains_key(owner@)
                && !deps.unreadable().contains(owner@),
            Err(_) => false,
        },
        r is Ok <==> deps.balances().contains_key(owner@),
        deps.unreadable().contains(owner@) ==> r is Err,
{
    match load_balance(deps, owner.as_str()) {
        Ok(Some(amount)) => Ok(GetDepositResponse { address: owner, deposit: amount }),
        Ok(None) => Err(ContractError::NotFound {}),
        Err(e) => Err(ContractError::Std(e)),
    }
}

/// The answers of `all_deposits` as pairs of address and amount.
pub open spec fn deposit_pairs(deposits: Seq<GetAllDepositResponse>) -> Seq<(Seq<char>, u128)> {
    deposits.map_values(|d: GetAllDepositResponse| (d.address@, d.totaldeposit))
}

/// A listing of the store turned into answers, entry by entry.
pub fn deposits_of(entries: &Vec<(String, u128)>) -> (deposits: Vec<GetAllDepositResponse>)
    ensures
        deposit_pairs(deposits@) == entry_pairs(entries@),
{
    let mut deposits: Vec<GetAllDepositResponse> = Vec::new();
    let mut i: usize = 0;
    while i < entries.len()
        invariant
            i <= entries.len(),
            deposits@.len() == i,
            deposit_pairs(deposits@) =~= entry_pairs(entries@).take(i as int),
        decreases entries.len() - i,
    {
        let address = entries[i].0.clone();
        deposits.push(GetAllDepositResponse { address, totaldeposit: entries[i].1 });
        i += 1;
    }
    assert(entry_pairs(entries@).take(i as int) =~= entry_pairs(entries@));
    deposits
}

/// Every balance entry once, zeros included, in ascending order of the
/// addresses. It succeeds exactly where the entries can be listed, and
/// else fails with the store's error.
pub fn all_deposits(deps: &Deps) -> (r: Result<Vec<GetAllDepositResponse>, ContractError>)
    ensures
        match r {
            Ok(deposits) => lists_balances(deposit_pairs(deposits@), deps.balances())
                && deps.unreadable() == Set::<Seq<char>>::empty() && deps.listable(),
            Err(ContractError::Std(_)) => !deps.listable(),
            Err(_) => false,
        },
{
    match list_balances(deps) {
        Ok(entries) => Ok(deposits_of(&entries)),
        Err(e) => Err(ContractError::Std(e)),
    }
}

/// The sum of the amounts of a listing, or `None` where it does not fit in
/// 128 bits.
pub fn sum_entries(entries: &Vec<(String, u128)>) -> (r: Option<u128>)
    ensures
        match r {
            Some(sum) => sum == listed_total(entry_pairs(entries@)),
            None => listed_total(entry_pairs(entries@)) > u128::MAX,
        },
{
    let ghost pairs = entry_pairs(entries@);
    let mut sum: u128 = 0;
    let mut i: usize = 0;
    while i < entries.len()
        invariant
            i <= entries.len(),
            pairs == entry_pairs(entries@),
            sum == listed_total(pairs.take(i as int)),
        decreases entries.len() - i,
    {
        proof {
            assert(pairs.take(i + 1).drop_last() =~= pairs.take(i as int));
            assert(pairs.take(i + 1).last() == pairs[i as int]);
            lemma_listed_total_grows(pairs, i + 1);
        }
        sum = match sum.checked_add(entries[i].1) {
            Some(next) => next,
            None => return None,
        };
        i += 1;
    }
    assert(pairs.take(i as int) =~= pairs);
    Some(sum)
}

/// The sum of all balances, or `None` where it does not fit in 128 bits.
/// It succeeds exactly where the entries can be listed, and else fails with
/// the store's error.
pub fn checked_totaldeposit(deps: &Deps) -> (r: Result<Option<GetTotalDepositResponse>, ContractError>)
    ensures
        match r {
            Ok(Some(response)) => deps.balances().dom().finite() && response.totaldeposit == total(deps.balances()),
            Ok(None) => deps.balances().dom().finite() && total(deps.balances()) > u128::MAX,
            Err(ContractError::Std(_)) => true,
            Err(_) => false,
        },
        r is Ok <==> deps.listable(),
{
    let entries = match list_balances(deps) {
        Ok(entries) => entries,
        Err(e) => return Err(ContractError::Std(e)),
    };
    proof {
        lemma_listing_total(entry_pairs(entries@), deps.balances());
    }
    match sum_entries(&entries) {
        Some(sum) => Ok(Some(GetTotalDepositResponse { totaldeposit: sum })),
        None => Ok(None),
    }
}

/// The sum of all balances. It succeeds exactly where the entries can be
/// listed, and else fails with the store's error.
pub fn totaldeposit(deps: &Deps) -> (r: Result<GetTotalDepositResponse, ContractError>)
    requires
        deps.balances().dom().finite() ==> total(deps.balances()) <= u128::MAX,
    ensures
        match r {
            Ok(response) => deps.balances().dom().finite() && response.totaldeposit == total(deps.balances()),
            Err(ContractError::Std(_)) => true,
            Err(_) => false,
        },
        r is Ok <==> deps.listable(),
{
    let entries = match list_balances(deps) {
        Ok(entries) => entries,
        Err(e) => return Err(ContractError::Std(e)),
    };
    proof {
        lemma_listing_total(entry_pairs(entries@), deps.balances());
    }
    Ok(GetTotalDepositResponse { totaldeposit: sum_entries(&entries).unwrap() })
}

} // verus!
