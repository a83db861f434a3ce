//! The entry points: setting the ledger up, changing it, and asking it.

use vstd::prelude::*;
use crate::contract::execute::{
    checked_deposit_fund, checked_transfer_fund, deposit_fits, deposit_fund, deposit_fund_owes,
    transfer_fits, transfer_fund, transfer_fund_owes, turned_down_alike, withdraw_fund,
    withdraw_fund_owes,
};
use crate::contract::query::{
    all_deposits, checked_totaldeposit, deposit, deposit_pairs, state, totaldeposit,
};
use crate::error::ContractError;
use crate::ledger::{
    after, balance_of, credit_to, debit_from, fits, inflow, lemma_balances_exact, matched_amount, outcome,
    total, Request,
};
use crate::msg::{
    fund_pairs, Event, ExecuteMsg, InstantiateMsg, MessageInfo, QueryMsg, QueryResponse, Response,
};
use crate::state::{
    address_valid, lists_balances, record_version, save_config, shared, Config, Deps, DepsMut,
};

pub mod execute;
pub mod query;

verus! {

/// The name under which the contract records its version.
pub const CONTRACT_NAME: &'static str = "crates.io:custody-ledger";

/// The version that the contract records.
pub const CONTRACT_VERSION: &'static str = "0.1.0";

/// Sets the ledger up for the denomination of `msg`, which is not empty.
/// It always succeeds: afterwards the store holds this denomination, and
/// the balances are as they were.
pub fn instantiate(deps: &mut DepsMut, _info: MessageInfo, msg: InstantiateMsg) -> (r: Result<
    Response,
    ContractError,
>)
    requires
        msg.allowed_denom@.len() > 0,
    ensures
        final(deps).balances() == old(deps).balances(),
        final(deps).unreadable() == old(deps).unreadable(),
        final(deps).listable() == old(deps).listable(),
        final(deps).denom() == Some(msg.allowed_denom@),
        r matches Ok(response) && {
            &&& response.event matches Event::Instantiate { allowed_denom }
            &&& allowed_denom@ == msg.allowed_denom@
            &&& response.messages@.len() == 0
        },
{
    let config = Config { allowed_denom: msg.allowed_denom };
    match record_version(deps, CONTRACT_NAME, CONTRACT_VERSION) {
        Ok(()) => {},
        Err(e) => return Err(ContractError::Std(e)),
    }
    match save_config(deps, &config) {
        Ok(()) => {},
        Err(e) => return Err(ContractError::Std(e)),
    }
    Ok(Response { event: Event::Instantiate { allowed_denom: config.allowed_denom }, messages: Vec::new() })
}

/// Whether the credit that `msg` asks for, if any, fits in 128 bits.
pub open spec fn execute_fits(deps: DepsMut, info: MessageInfo, msg: ExecuteMsg) -> bool {
    match msg {
        ExecuteMsg::Deposit {} => deposit_fits(deps, info),
        ExecuteMsg::Transfer { amount, receiver } => transfer_fits(deps, info, amount, receiver),
        ExecuteMsg::Withdraw { amount } => true,
    }
}

/// What `execute` owes: for each message what the function of that name
/// owes.
pub open spec fn execute_owes(
    before: DepsMut,
    after: DepsMut,
    info: MessageInfo,
    msg: ExecuteMsg,
    r: Result<Response, ContractError>,
) -> bool {
    match msg {
        ExecuteMsg::Deposit {} => deposit_fund_owes(before, after, info, r),
        ExecuteMsg::Transfer { amount, receiver } => transfer_fund_owes(before, after, info, amount, receiver, r),
        ExecuteMsg::Withdraw { amount } => withdraw_fund_owes(before, after, info, amount, r),
    }
}

/// Carries out a deposit, a transfer or a withdrawal, each as the function
/// of that name does.
pub fn execute(deps: &mut DepsMut, info: MessageInfo, msg: ExecuteMsg) -> (r: Result<Response, ContractError>)
    requires
        execute_fits(*old(deps), info, msg),
    ensures
        execute_owes(*old(deps), *final(deps), info, msg, r),
{
    match msg {
        ExecuteMsg::Deposit {} => deposit_fund(deps, info),
        ExecuteMsg::Transfer { amount, receiver } => transfer_fund(deps, info, amount, receiver),
        ExecuteMsg::Withdraw { amount } => withdraw_fund(deps, info, amount),
    }
}

/// What `checked_execute` owes: `None`, with the store as it was, exactly
/// where the credit does not fit, and else what `execute` owes.
pub open spec fn checked_execute_owes(
    before: DepsMut,
    after: DepsMut,
    info: MessageInfo,
    msg: ExecuteMsg,
    r: Option<Result<Response, ContractError>>,
) -> bool {
    match r {
        Some(done) => execute_fits(before, info, msg) && execute_owes(before, after, info, msg, done),
        None => !execute_fits(before, info, msg) && after == before,
    }
}

/// `execute` for a caller that does not know whether the credit fits:
/// `None`, with the store as it was, exactly where it does not.
pub fn checked_execute(deps: &mut DepsMut, info: MessageInfo, msg: ExecuteMsg) -> (r: Option<
    Result<Response, ContractError>,
>)
    ensures
        checked_execute_owes(*old(deps), *final(deps), info, msg, r),
{
    match msg {
        ExecuteMsg::Deposit {} => checked_deposit_fund(deps, info),
        ExecuteMsg::Transfer { amount, receiver } => checked_transfer_fund(deps, info, amount, receiver),
        ExecuteMsg::Withdraw { amount } => Some(withdraw_fund(deps, info, amount)),
    }
}

/// The request that `msg` makes of the store `before`, as the rules see it.
pub open spec fn request_of(before: DepsMut, info: MessageInfo, msg: ExecuteMsg) -> Request {
    match msg {
        ExecuteMsg::Deposit {} => Request::Deposit {
            sender: info.sender@,
            amount: matched_amount(fund_pairs(info.funds@), before.denom().unwrap()),
        },
        ExecuteMsg::Transfer { amount, receiver } => Request::Transfer {
            funds_empty: info.funds@.len() == 0,
            receiver_valid: address_valid(shared(before), receiver@),
            sender: info.sender@,
            receiver: receiver@,
            amount,
        },
        ExecuteMsg::Withdraw { amount } => Request::Withdraw {
            funds_empty: info.funds@.len() == 0,
            sender: info.sender@,
            amount,
        },
    }
}

/// Every call changes the store as the rules say or not at all: where it
/// succeeds, the balances are those of the outcome of its request, within
/// 128 bits, and every balance is what it was plus the credit less the
/// debit; where it is turned down, for whatever reason, the store is as it
/// was.
pub proof fn lemma_execute_follows_the_rules(
    before: DepsMut,
    after: DepsMut,
    info: MessageInfo,
    msg: ExecuteMsg,
    r: Option<Result<Response, ContractError>>,
    who: Seq<char>,
)
    requires
        checked_execute_owes(before, after, info, msg, r),
    ensures
        r matches Some(Ok(_)) ==> {
            let request = request_of(before, info, msg);
            &&& outcome(before.balances(), request) == Ok::<Map<Seq<char>, u128>, ContractError>(after.balances())
            &&& fits(before.balances(), request)
            &&& debit_from(request, who) <= balance_of(before.balances(), who)
            &&& balance_of(after.balances(), who) == balance_of(before.balances(), who) + credit_to(request, who)
                - debit_from(request, who)
        },
        !(r matches Some(Ok(_))) ==> after == before,
{
    if r matches Some(Ok(_)) {
        lemma_balances_exact(before.balances(), request_of(before, info, msg), who);
    }
}

/// Rejection repeats: a call that did not succeed has left the store as it
/// was, and the same call made again is turned down alike and leaves the
/// store once more.
pub proof fn lemma_execute_rejection_repeats(
    before: DepsMut,
    between: DepsMut,
    after: DepsMut,
    info: MessageInfo,
    msg: ExecuteMsg,
    first: Option<Result<Response, ContractError>>,
    second: Option<Result<Response, ContractError>>,
)
    requires
        checked_execute_owes(before, between, info, msg, first),
        checked_execute_owes(between, after, info, msg, second),
        !(first matches Some(Ok(_))),
    ensures
        between == before,
        after == before,
        turned_down_alike(first, second),
{
}

/// The stores, requests and results of calls made one after another: each
/// call finds the store that the one before has left.
pub open spec fn is_run(
    stores: Seq<DepsMut>,
    infos: Seq<MessageInfo>,
    msgs: Seq<ExecuteMsg>,
    results: Seq<Option<Result<Response, ContractError>>>,
) -> bool {
    &&& stores.len() == results.len() + 1
    &&& infos.len() == results.len()
    &&& msgs.len() == results.len()
    &&& forall|i: int|
        0 <= i < results.len() ==> checked_execute_owes(stores[i], stores[i + 1], infos[i], msgs[i], #[trigger] results[i])
}

/// What the first `n` calls of a run have brought in: the deposits that
/// succeeded less the withdrawals that succeeded.
pub open spec fn run_inflow(
    stores: Seq<DepsMut>,
    infos: Seq<MessageInfo>,
    msgs: Seq<ExecuteMsg>,
    results: Seq<Option<Result<Response, ContractError>>>,
    n: int,
) -> int
    decreases n,
{
    if n <= 0 {
        0
    } else {
        run_inflow(stores, infos, msgs, results, n - 1) + if results[n - 1] matches Some(Ok(_)) {
            inflow(request_of(stores[n - 1], infos[n - 1], msgs[n - 1]))
        } else {
            0
        }
    }
}

/// Conservation over any run of calls, successful or not, in any order:
/// after `n` of them the total is what it was at the start plus the
/// deposits that succeeded less the withdrawals that succeeded. Transfers
/// and calls that were turned down count for nothing. Entries that could be
/// listed at the start can still be listed.
pub proof fn lemma_run_conserves(
    stores: Seq<DepsMut>,
    infos: Seq<MessageInfo>,
    msgs: Seq<ExecuteMsg>,
    results: Seq<Option<Result<Response, ContractError>>>,
    n: int,
)
    requires
        is_run(stores, infos, msgs, results),
        0 <= n <= results.len(),
        stores[0].balances().dom().finite(),
    ensures
        stores[n].balances().dom().finite(),
        total(stores[n].balances()) == total(stores[0].balances()) + run_inflow(stores, infos, msgs, results, n),
        stores[0].listable() ==> stores[n].listable(),
    decreases n,
{
    if n > 0 {
        lemma_run_conserves(stores, infos, msgs, results, n - 1);
        let r = results[n - 1];
        assert(checked_execute_owes(stores[n - 1], stores[n - 1 + 1], infos[n - 1], msgs[n - 1], r));
    }
}

/// Conservation from the start: where a run began on a store without
/// balance entries, the total after `n` calls, which is what `totaldeposit`
/// answers, is the deposits that succeeded less the withdrawals that
/// succeeded.
pub proof fn lemma_run_from_empty(
    stores: Seq<DepsMut>,
    infos: Seq<MessageInfo>,
    msgs: Seq<ExecuteMsg>,
    results: Seq<Option<Result<Response, ContractError>>>,
    n: int,
)
    requires
        is_run(stores, infos, msgs, results),
        0 <= n <= results.len(),
        stores[0].balances() == Map::<Seq<char>, u128>::empty(),
    ensures
        stores[n].balances().dom().finite(),
        total(stores[n].balances()) == run_inflow(stores, infos, msgs, results, n),
{
    assert(stores[0].balances().dom() =~= Set::empty());
    lemma_run_conserves(stores, infos, msgs, results, n);
}

/// What `query` owes: for each question what the function of that name
/// owes, the answer in the variant of that question.
pub open spec fn query_owes(deps: Deps, msg: QueryMsg, r: Result<QueryResponse, ContractError>) -> bool {
    match (msg, r) {
        (QueryMsg::GetState {}, Ok(QueryResponse::State(response))) => deps.denom() == Some(
            response.allowed_denom@,
        ),
        (QueryMsg::GetState {}, Err(ContractError::Std(_))) => deps.denom() is None,
        (QueryMsg::GetDeposit { owner }, Ok(QueryResponse::Deposit(response))) => response.address@
            == owner@ && deps.balances().contains_pair(owner@, response.deposit),
        (QueryMsg::GetDeposit { owner }, Err(ContractError::Std(_))) => deps.unreadable().contains(owner@),
        (QueryMsg::GetDeposit { owner }, Err(ContractError::NotFound {})) => !deps.balances().contains_key(
            owner@,
        ) && !deps.unreadable().contains(owner@),
        (QueryMsg::GetAllDeposit {}, Ok(QueryResponse::AllDeposit(deposits))) => lists_balances(
            deposit_pairs(deposits@),
            deps.balances(),
        ) && deps.unreadable() == Set::<Seq<char>>::empty() && deps.listable(),
        (QueryMsg::GetAllDeposit {}, Err(ContractError::Std(_))) => !deps.listable(),
        (QueryMsg::GetTotalDeposit {}, Ok(QueryResponse::TotalDeposit(response))) => deps.listable()
            && deps.balances().dom().finite() && response.totaldeposit == total(deps.balances()),
        (QueryMsg::GetTotalDeposit {}, Err(ContractError::Std(_))) => !deps.listable(),
        _ => false,
    }
}

/// Whether the total that `msg` asks for, if it does, fits in 128 bits.
pub open spec fn query_fits(deps: Deps, msg: QueryMsg) -> bool {
    msg is GetTotalDeposit && deps.balances().dom().finite() ==> total(deps.balances()) <= u128::MAX
}

/// Answers `msg`, each question as the function of that name does.
pub fn query(deps: &Deps, msg: QueryMsg) -> (r: Result<QueryResponse, ContractError>)
    requires
        query_fits(*deps, msg),
    ensures
        query_owes(*deps, msg, r),
{
    match msg {
        QueryMsg::GetState {} => match state(deps) {
            Ok(response) => Ok(QueryResponse::State(response)),
            Err(e) => Err(e),
        },
        QueryMsg::GetDeposit { owner } => match deposit(deps, owner) {
            Ok(response) => Ok(QueryResponse::Deposit(response)),
            Err(e) => Err(e),
        },
        QueryMsg::GetAllDeposit {} => match all_deposits(deps) {
            Ok(response) => Ok(QueryResponse::AllDeposit(response)),
            Err(e) => Err(e),
        },
        QueryMsg::GetTotalDeposit {} => match totaldeposit(deps) {
            Ok(response) => Ok(QueryResponse::TotalDeposit(response)),
            Err(e) => Err(e),
        },
    }
}

/// `query` for a caller that does not know whether the total fits:
/// `Ok(None)` exactly where the total is asked for and exceeds 128 bits.
pub fn checked_query(deps: &Deps, msg: QueryMsg) -> (r: Result<Option<QueryResponse>, ContractError>)
    ensures
        match r {
            Ok(Some(response)) => query_owes(*deps, msg, Ok(response)),
            Ok(None) => msg is GetTotalDeposit && deps.listable() && deps.balances().dom().finite() && total(
                deps.balances(),
            ) > u128::MAX,
            Err(e) => query_owes(*deps, msg, Err(e)),
        },
{
    match msg {
        QueryMsg::GetTotalDeposit {} => match checked_totaldeposit(deps) {
            Ok(Some(response)) => Ok(Some(QueryResponse::TotalDeposit(response))),
            Ok(None) => Ok(None),
            Err(e) => Err(e),
        },
        other => match query(deps, other) {
            Ok(response) => Ok(Some(response)),
            Err(e) => Err(e),
        },
    }
}

} // verus!
