//! The three requests that change balances.

use vstd::prelude::*;
use crate::error::ContractError;
use crate::ledger::{
    balance_of, credit_fits, debited, deposit_outcome, lemma_deposit_adds_to_total,
    lemma_transfer_keeps_total, lemma_withdraw_takes_from_total, matched_amount, total,
    transfer_outcome, withdraw_outcome,
};
use crate::msg::{fund_pairs, BankSend, Coin, Event, MessageInfo, Response};
use crate::state::{
    address_valid, encode_amount, load_balance, load_config, put_balance, shared,
    validate_address, DepsMut,
};

verus! {

/// The amount of the allowed denomination among the attached funds: that
/// of the first coin of this denomination, or zero.
pub fn allowed_amount(funds: &Vec<Coin>, denom: &String) -> (amount: u128)
    ensures
        amount == matched_amount(fund_pairs(funds@), denom@),
{
    let ghost pairs = fund_pairs(funds@);
    let mut i: usize = 0;
    assert(pairs.skip(0) =~= pairs);
    while i < funds.len()
        invariant
            i <= funds.len(),
            pairs == fund_pairs(funds@),
            matched_amount(pairs, denom@) == matched_amount(pairs.skip(i as int), denom@),
        decreases funds.len() - i,
    {
        proof {
            assert(pairs.skip(i as int).drop_first() =~= pairs.skip(i + 1));
            assert(pairs.skip(i as int)[0] == funds@[i as int].pair());
        }
        if funds[i].denom == *denom {
            return funds[i].amount;
        }
        i += 1;
    }
    assert(pairs.skip(i as int).len() == 0);
    0
}

/// The balance after `amount` came in: an account without an entry starts
/// at zero.
pub fn credit(balance: Option<u128>, amount: u128) -> (r: u128)
    requires
        balance.unwrap_or(0) + amount <= u128::MAX,
    ensures
        r == balance.unwrap_or(0) + amount,
{
    match balance {
        Some(held) => held + amount,
        None => amount,
    }
}

/// The balance after `amount` went out, or why it cannot: an account
/// without an entry has not deposited, and one that holds less than
/// `amount` gets the error `short`.
pub fn debit(balance: Option<u128>, amount: u128, short: ContractError) -> (r: Result<u128, ContractError>)
    ensures
        match balance {
            None => r == Err::<u128, ContractError>(ContractError::AddressHasNotDeposit {}),
            Some(held) => if held >= amount {
                r == Ok::<u128, ContractError>((held - amount) as u128)
            } else {
                r == Err::<u128, ContractError>(short)
            },
        },
{
    match balance {
        None => Err(ContractError::AddressHasNotDeposit {}),
        Some(held) => if held >= amount {
            Ok(held - amount)
        } else {
            Err(short)
        },
    }
}

/// Whether the sender's balance with the deposit on top fits in 128 bits.
pub open spec fn deposit_fits(before: DepsMut, info: MessageInfo) -> bool {
    before.denom() matches Some(denom) ==> credit_fits(
        before.balances(),
        info.sender@,
        matched_amount(fund_pairs(info.funds@), denom),
    )
}

/// Whether the store stands in the way of a deposit: it holds no
/// denomination, or there is something to credit and the sender's entry is
/// unreadable.
pub open spec fn deposit_store_fails(before: DepsMut, info: MessageInfo) -> bool {
    ||| before.denom() is None
    ||| matched_amount(fund_pairs(info.funds@), before.denom().unwrap()) > 0 && before.unreadable().contains(
        info.sender@,
    )
}

/// What `deposit_fund` owes. Where the store stands in the way, the error
/// is `Std`; an unreadable entry is no balance entry, so `Std` never comes
/// where the denomination is set and the sender has one. Otherwise a deposit of nothing is turned down, and any other
/// succeeds: the sender's entry grows by the amount of the allowed
/// denomination among the funds and nothing else changes. Whenever it
/// fails, the store is as it was.
pub open spec fn deposit_fund_owes(
    before: DepsMut,
    after: DepsMut,
    info: MessageInfo,
    r: Result<Response, ContractError>,
) -> bool {
    let amount = matched_amount(fund_pairs(info.funds@), before.denom().unwrap());
    let outcome = deposit_outcome(before.balances(), info.sender@, amount);
    match r {
        Ok(response) => {
            &&& !deposit_store_fails(before, info)
            &&& outcome == Ok::<Map<Seq<char>, u128>, ContractError>(after.balances())
            &&& after.denom() == before.denom()
            &&& after.unreadable() == before.unreadable()
            &&& before.listable() ==> after.listable()
            &&& response.event matches Event::Deposit { depositor, amount: paid }
            &&& depositor@ == info.sender@
            &&& paid == amount
            &&& response.messages@.len() == 0
            &&& before.balances().dom().finite() ==> after.balances().dom().finite() && total(after.balances())
                == total(before.balances()) + amount
        },
        Err(ContractError::Std(_)) => {
            &&& deposit_store_fails(before, info)
            &&& before.denom() is None || !before.balances().contains_key(info.sender@)
            &&& after == before
        },
        Err(e) => {
            &&& !deposit_store_fails(before, info)
            &&& outcome == Err::<Map<Seq<char>, u128>, ContractError>(e)
            &&& after == before
        },
    }
}

/// Credits the sender with what the attached funds hold of the allowed
/// denomination. Coins of other denominations are passed over.
pub fn deposit_fund(deps: &mut DepsMut, info: MessageInfo) -> (r: Result<Response, ContractError>)
    requires
        deposit_fits(*old(deps), info),
    ensures
        deposit_fund_owes(*old(deps), *final(deps), info, r),
{
    let view = deps.as_ref();
    let config = match load_config(&view) {
        Ok(config) => config,
        Err(e) => return Err(ContractError::Std(e)),
    };
    let amount = allowed_amount(&info.funds, &config.allowed_denom);
    if amount == 0 {
        return Err(ContractError::InvalidDepositAmount {});
    }
    let held = match load_balance(&view, info.sender.as_str()) {
        Ok(held) => held,
        Err(e) => return Err(ContractError::Std(e)),
    };
    let balance = credit(held, amount);
    let bytes = match encode_amount(balance) {
        Ok(bytes) => bytes,
        Err(e) => return Err(ContractError::Std(e)),
    };
    put_balance(deps, info.sender.as_str(), &bytes);
    proof {
        assert(deps.unreadable() =~= old(deps).unreadable());
        if old(deps).balances().dom().finite() {
            lemma_deposit_adds_to_total(old(deps).balances(), info.sender@, amount);
        }
    }
    Ok(Response { event: Event::Deposit { depositor: info.sender, amount }, messages: Vec::new() })
}

/// Whether the store stands in the way of moving `amount`: there is
/// something to move and the sender's entry is unreadable, or every rule is
/// met and the entry of another receiver is unreadable.
pub open spec fn move_store_fails(before: DepsMut, sender: Seq<char>, receiver: Seq<char>, amount: u128) -> bool {
    amount > 0 && {
        ||| before.unreadable().contains(sender)
        ||| transfer_outcome(before.balances(), true, true, sender, receiver, amount) is Ok
            && before.unreadable().contains(receiver)
    }
}

/// What moving `amount` from `sender` to `receiver` owes, once the request
/// carried no funds and the receiver's address was accepted. Where the
/// store stands in the way, the error is `Std`. Otherwise the rules of a
/// transfer decide: on success both entries changed together, else the
/// error is that of the first rule that is broken. Whenever it fails, the
/// store is as it was.
pub open spec fn move_funds_owes(
    before: DepsMut,
    after: DepsMut,
    sender: Seq<char>,
    receiver: Seq<char>,
    amount: u128,
    r: Result<(), ContractError>,
) -> bool {
    let outcome = transfer_outcome(before.balances(), true, true, sender, receiver, amount);
    match r {
        Ok(()) => {
            &&& !move_store_fails(before, sender, receiver, amount)
            &&& outcome == Ok::<Map<Seq<char>, u128>, ContractError>(after.balances())
            &&& after.denom() == before.denom()
            &&& after.unreadable() == before.unreadable()
            &&& before.listable() ==> after.listable()
            &&& before.balances().dom().finite() ==> after.balances().dom().finite() && total(after.balances())
                == total(before.balances())
        },
        Err(ContractError::Std(_)) => {
            &&& move_store_fails(before, sender, receiver, amount)
            &&& !before.balances().contains_key(sender) || !before.balances().contains_key(receiver)
            &&& after == before
        },
        Err(e) => {
            &&& !move_store_fails(before, sender, receiver, amount)
            &&& outcome == Err::<Map<Seq<char>, u128>, ContractError>(e)
            &&& after == before
        },
    }
}

/// Moves `amount` from the entry of `sender` to that of `receiver`, which
/// is made where there is none. Both new balances are worked out and
/// encoded before the first is written, so that a failure leaves no entry
/// changed. A transfer to oneself changes nothing, but passes every rule.
pub fn move_funds(deps: &mut DepsMut, sender: &String, receiver: &String, amount: u128) -> (r: Result<
    (),
    ContractError,
>)
    requires
        transfer_outcome(old(deps).balances(), true, true, sender@, receiver@, amount) is Ok
            ==> credit_fits(debited(old(deps).balances(), sender@, amount), receiver@, amount),
    ensures
        move_funds_owes(*old(deps), *final(deps), sender@, receiver@, amount, r),
{
    if amount == 0 {
        return Err(ContractError::InvalidTransferAmount {});
    }
    let view = deps.as_ref();
    let held = match load_balance(&view, sender.as_str()) {
        Ok(held) => held,
        Err(e) => return Err(ContractError::Std(e)),
    };
    let left = match debit(held, amount, ContractError::TransferFundsExceedsBalance {}) {
        Ok(left) => left,
        Err(e) => return Err(e),
    };
    let received = if *sender == *receiver {
        credit(Some(left), amount)
    } else {
        match load_balance(&view, receiver.as_str()) {
            Ok(held) => credit(held, amount),
            Err(e) => return Err(ContractError::Std(e)),
        }
    };
    let sender_bytes = match encode_amount(left) {
        Ok(bytes) => bytes,
        Err(e) => return Err(ContractError::Std(e)),
    };
    let receiver_bytes = match encode_amount(received) {
        Ok(bytes) => bytes,
        Err(e) => return Err(ContractError::Std(e)),
    };
    put_balance(deps, sender.as_str(), &sender_bytes);
    put_balance(deps, receiver.as_str(), &receiver_bytes);
    proof {
        assert(deps.unreadable() =~= old(deps).unreadable());
        if old(deps).balances().dom().finite() {
            lemma_transfer_keeps_total(old(deps).balances(), true, true, sender@, receiver@, amount);
        }
    }
    Ok(())
}

/// Whether the receiver's balance with the transfer on top fits in 128
/// bits, where the transfer meets every rule.
pub open spec fn transfer_fits(before: DepsMut, info: MessageInfo, amount: u128, receiver: String) -> bool {
    transfer_outcome(
        before.balances(),
        info.funds@.len() == 0,
        address_valid(shared(before), receiver@),
        info.sender@,
        receiver@,
        amount,
    ) is Ok ==> credit_fits(debited(before.balances(), info.sender@, amount), receiver@, amount)
}

/// Whether the store stands in the way of a transfer: the request itself
/// is in order, and the store stands in the way of moving the amount.
pub open spec fn transfer_store_fails(before: DepsMut, info: MessageInfo, amount: u128, receiver: String) -> bool {
    &&& info.funds@.len() == 0
    &&& address_valid(shared(before), receiver@)
    &&& move_store_fails(before, info.sender@, receiver@, amount)
}

/// What `transfer_fund` owes. Where the store stands in the way, the error
/// is `Std`. Otherwise the rules of a transfer decide, tried in their order
/// against the balances before: on success the balances are those that the
/// transfer gives, else the error is that of the first rule that is broken.
/// Whenever it fails, the store is as it was.
pub open spec fn transfer_fund_owes(
    before: DepsMut,
    after: DepsMut,
    info: MessageInfo,
    amount: u128,
    receiver: String,
    r: Result<Response, ContractError>,
) -> bool {
    let outcome = transfer_outcome(
        before.balances(),
        info.funds@.len() == 0,
        address_valid(shared(before), receiver@),
        info.sender@,
        receiver@,
        amount,
    );
    match r {
        Ok(response) => {
            &&& !transfer_store_fails(before, info, amount, receiver)
            &&& outcome == Ok::<Map<Seq<char>, u128>, ContractError>(after.balances())
            &&& after.denom() == before.denom()
            &&& after.unreadable() == before.unreadable()
            &&& before.listable() ==> after.listable()
            &&& response.event matches Event::Transfer { sender, receiver: to, amount: moved }
            &&& sender@ == info.sender@
            &&& to@ == receiver@
            &&& moved == amount
            &&& response.messages@.len() == 0
            &&& before.balances().dom().finite() ==> after.balances().dom().finite() && total(after.balances())
                == total(before.balances())
        },
        Err(ContractError::Std(_)) => {
            &&& transfer_store_fails(before, info, amount, receiver)
            &&& !before.balances().contains_key(info.sender@) || !before.balances().contains_key(receiver@)
            &&& after == before
        },
        Err(e) => {
            &&& !transfer_store_fails(before, info, amount, receiver)
            &&& outcome == Err::<Map<Seq<char>, u128>, ContractError>(e)
            &&& after == before
        },
    }
}

/// Moves `amount` of the sender's balance to `receiver`.
pub fn transfer_fund(deps: &mut DepsMut, info: MessageInfo, amount: u128, receiver: String) -> (r: Result<
    Response,
    ContractError,
>)
    requires
        transfer_fits(*old(deps), info, amount, receiver),
    ensures
        transfer_fund_owes(*old(deps), *final(deps), info, amount, receiver, r),
{
    if info.funds.len() != 0 {
        return Err(ContractError::NoEmptyFunds {});
    }
    let view = deps.as_ref();
    let receiver = match validate_address(&view, receiver.as_str()) {
        Ok(receiver) => receiver,
        Err(_) => return Err(ContractError::InvalidAddress {}),
    };
    match move_funds(deps, &info.sender, &receiver, amount) {
        Ok(()) => Ok(
            Response { event: Event::Transfer { sender: info.sender, receiver, amount }, messages: Vec::new() },
        ),
        Err(e) => Err(e),
    }
}

/// Whether the store stands in the way of a withdrawal: the request
/// carries no funds, and the store holds no denomination, or there is
/// something to withdraw and the sender's entry is unreadable.
pub open spec fn withdraw_store_fails(before: DepsMut, info: MessageInfo, amount: u128) -> bool {
    info.funds@.len() == 0 && {
        ||| before.denom() is None
        ||| amount > 0 && before.unreadable().contains(info.sender@)
    }
}

/// What `withdraw_fund` owes. Where the store stands in the way, the error
/// is `Std`. Otherwise the rules of a withdrawal decide, tried in their
/// order against the balances before: on success the sender's entry is
/// lower by `amount` and exactly one instruction releases `amount` of the
/// allowed denomination to the sender, else the error is that of the first
/// rule that is broken. Whenever it fails, the store is as it was.
pub open spec fn withdraw_fund_owes(
    before: DepsMut,
    after: DepsMut,
    info: MessageInfo,
    amount: u128,
    r: Result<Response, ContractError>,
) -> bool {
    let outcome = withdraw_outcome(before.balances(), info.funds@.len() == 0, info.sender@, amount);
    match r {
        Ok(response) => {
            &&& !withdraw_store_fails(before, info, amount)
            &&& outcome == Ok::<Map<Seq<char>, u128>, ContractError>(after.balances())
            &&& after.denom() == before.denom()
            &&& after.unreadable() == before.unreadable()
            &&& before.listable() ==> after.listable()
            &&& response.event matches Event::Withdraw { receiver, amount: paid }
            &&& receiver@ == info.sender@
            &&& paid == amount
            &&& response.messages@.len() == 1
            &&& response.messages@[0].to_address@ == info.sender@
            &&& fund_pairs(response.messages@[0].amount@) == seq![(before.denom().unwrap(), amount)]
            &&& before.balances().dom().finite() ==> after.balances().dom().finite() && total(after.balances())
                + amount == total(before.balances())
        },
        Err(ContractError::Std(_)) => {
            &&& withdraw_store_fails(before, info, amount)
            &&& before.denom() is None || !before.balances().contains_key(info.sender@)
            &&& after == before
        },
        Err(e) => {
            &&& !withdraw_store_fails(before, info, amount)
            &&& outcome == Err::<Map<Seq<char>, u128>, ContractError>(e)
            &&& after == before
        },
    }
}

/// Takes `amount` from the sender's balance and writes the instruction that
/// releases as much of the allowed denomination to the sender. The new
/// balance is in the store before the instruction is handed out.
pub fn withdraw_fund(deps: &mut DepsMut, info: MessageInfo, amount: u128) -> (r: Result<Response, ContractError>)
    ensures
        withdraw_fund_owes(*old(deps), *final(deps), info, amount, r),
{
    if info.funds.len() != 0 {
        return Err(ContractError::NoEmptyFunds {});
    }
    let view = deps.as_ref();
    let config = match load_config(&view) {
        Ok(config) => config,
        Err(e) => return Err(ContractError::Std(e)),
    };
    if amount == 0 {
        return Err(ContractError::InvalidWithdrawAmount {});
    }
    let held = match load_balance(&view, info.sender.as_str()) {
        Ok(held) => held,
        Err(e) => return Err(ContractError::Std(e)),
    };
    let left = match debit(held, amount, ContractError::WithdrawFundsExceedsBalance {}) {
        Ok(left) => left,
        Err(e) => return Err(e),
    };
    let bytes = match encode_amount(left) {
        Ok(bytes) => bytes,
        Err(e) => return Err(ContractError::Std(e)),
    };
    put_balance(deps, info.sender.as_str(), &bytes);
    let mut coins: Vec<Coin> = Vec::new();
    coins.push(Coin { denom: config.allowed_denom, amount });
    let mut messages: Vec<BankSend> = Vec::new();
    messages.push(BankSend { to_address: info.sender.clone(), amount: coins });
    proof {
        assert(fund_pairs(messages@[0].amount@) =~= seq![(old(deps).denom().unwrap(), amount)]);
        assert(deps.unreadable() =~= old(deps).unreadable());
        if old(deps).balances().dom().finite() {
            lemma_withdraw_takes_from_total(old(deps).balances(), true, info.sender@, amount);
        }
    }
    Ok(Response { event: Event::Withdraw { receiver: info.sender, amount }, messages })
}

/// What `checked_deposit_fund` owes: `None`, with the store as it was,
/// exactly where the deposit does not fit, and else what `deposit_fund`
/// owes.
pub open spec fn checked_deposit_fund_owes(
    before: DepsMut,
    after: DepsMut,
    info: MessageInfo,
    r: Option<Result<Response, ContractError>>,
) -> bool {
    match r {
        Some(done) => deposit_fits(before, info) && deposit_fund_owes(before, after, info, done),
        None => !deposit_fits(before, info) && after == before,
    }
}

/// `deposit_fund` for a caller that does not know whether the deposit fits:
/// `None`, with the store as it was, exactly where the sender's balance
/// with the deposit on top exceeds 128 bits.
pub fn checked_deposit_fund(deps: &mut DepsMut, info: MessageInfo) -> (r: Option<Result<Response, ContractError>>)
    ensures
        checked_deposit_fund_owes(*old(deps), *final(deps), info, r),
{
    let view = deps.as_ref();
    let fits = match load_config(&view) {
        Ok(config) => {
            let amount = allowed_amount(&info.funds, &config.allowed_denom);
            match load_balance(&view, info.sender.as_str()) {
                Ok(Some(held)) => amount <= u128::MAX - held,
                _ => true,
            }
        },
        Err(_) => true,
    };
    if fits {
        Some(deposit_fund(deps, info))
    } else {
        None
    }
}

/// What `checked_transfer_fund` owes: `None`, with the store as it was,
/// exactly where the transfer does not fit, and else what `transfer_fund`
/// owes.
pub open spec fn checked_transfer_fund_owes(
    before: DepsMut,
    after: DepsMut,
    info: MessageInfo,
    amount: u128,
    receiver: String,
    r: Option<Result<Response, ContractError>>,
) -> bool {
    match r {
        Some(done) => transfer_fits(before, info, amount, receiver) && transfer_fund_owes(
            before,
            after,
            info,
            amount,
            receiver,
            done,
        ),
        None => !transfer_fits(before, info, amount, receiver) && after == before,
    }
}

/// `transfer_fund` for a caller that does not know whether the transfer
/// fits: `None`, with the store as it was, exactly where the transfer meets
/// every rule and the receiver's balance with it exceeds 128 bits.
pub fn checked_transfer_fund(deps: &mut DepsMut, info: MessageInfo, amount: u128, receiver: String) -> (r: Option<
    Result<Response, ContractError>,
>)
    ensures
        checked_transfer_fund_owes(*old(deps), *final(deps), info, amount, receiver, r),
{
    let view = deps.as_ref();
    let fits = if info.funds.len() != 0 || amount == 0 || info.sender == receiver {
        true
    } else {
        match load_balance(&view, receiver.as_str()) {
            Ok(Some(held)) => if amount <= u128::MAX - held {
                true
            } else {
                let valid = validate_address(&view, receiver.as_str()).is_ok();
                match load_balance(&view, info.sender.as_str()) {
                    Ok(Some(owned)) => !valid || owned < amount,
                    _ => true,
                }
            },
            _ => true,
        }
    };
    if fits {
        Some(transfer_fund(deps, info, amount, receiver))
    } else {
        None
    }
}

/// Two errors are of one kind: both are the store's, or they are the same.
pub open spec fn same_kind(first: ContractError, second: ContractError) -> bool {
    (first is Std && second is Std) || first == second
}

/// Whether both results are errors of one kind.
pub open spec fn rejected_alike<T>(first: Result<T, ContractError>, second: Result<T, ContractError>) -> bool {
    match (first, second) {
        (Err(e), Err(again)) => same_kind(e, again),
        _ => false,
    }
}

/// Whether both calls were turned down alike: both did not fit, or both
/// gave errors of one kind.
pub open spec fn turned_down_alike<T>(
    first: Option<Result<T, ContractError>>,
    second: Option<Result<T, ContractError>>,
) -> bool {
    match (first, second) {
        (None, None) => true,
        (Some(Err(e)), Some(Err(again))) => same_kind(e, again),
        _ => false,
    }
}

/// A deposit that did not succeed has left the store as it was, and the
/// same deposit made again is turned down alike and leaves the store once
/// more.
pub proof fn lemma_deposit_rejection_repeats(
    before: DepsMut,
    between: DepsMut,
    after: DepsMut,
    info: MessageInfo,
    first: Option<Result<Response, ContractError>>,
    second: Option<Result<Response, ContractError>>,
)
    requires
        checked_deposit_fund_owes(before, between, info, first),
        checked_deposit_fund_owes(between, after, info, second),
        !(first matches Some(Ok(_))),
    ensures
        between == before,
        after == before,
        turned_down_alike(first, second),
{
}

/// A transfer that did not succeed has left the store as it was, so that
/// neither the sender's nor the receiver's balance has changed; the same
/// transfer made again is turned down alike and leaves the store once more.
pub proof fn lemma_transfer_rejection_repeats(
    before: DepsMut,
    between: DepsMut,
    after: DepsMut,
    info: MessageInfo,
    amount: u128,
    receiver: String,
    first: Option<Result<Response, ContractError>>,
    second: Option<Result<Response, ContractError>>,
)
    requires
        checked_transfer_fund_owes(before, between, info, amount, receiver, first),
        checked_transfer_fund_owes(between, after, info, amount, receiver, second),
        !(first matches Some(Ok(_))),
    ensures
        between == before,
        after == before,
        turned_down_alike(first, second),
{
}

/// A withdrawal that was turned down has left the store as it was and
/// handed out no instruction; the same withdrawal made again is turned down
/// with an error of the same kind and leaves the store once more.
pub proof fn lemma_withdraw_rejection_repeats(
    before: DepsMut,
    between: DepsMut,
    after: DepsMut,
    info: MessageInfo,
    amount: u128,
    first: Result<Response, ContractError>,
    second: Result<Response, ContractError>,
)
    requires
        withdraw_fund_owes(before, between, info, amount, first),
        withdraw_fund_owes(between, after, info, amount, second),
        first is Err,
    ensures
        between == before,
        after == before,
        rejected_alike(first, second),
{
}

/// Whatever a deposit is asked for, and whether it fits in 128 bits or not:
/// where it succeeds the total has grown by the amount of the allowed
/// denomination among the funds, and where it does not the store is as it
/// was.
pub proof fn lemma_deposit_conserves(
    before: DepsMut,
    after: DepsMut,
    info: MessageInfo,
    r: Option<Result<Response, ContractError>>,
)
    requires
        checked_deposit_fund_owes(before, after, info, r),
        before.balances().dom().finite(),
    ensures
        after.balances().dom().finite(),
        r matches Some(Ok(_)) ==> total(after.balances()) == total(before.balances()) + matched_amount(
            fund_pairs(info.funds@),
            before.denom().unwrap(),
        ),
        !(r matches Some(Ok(_))) ==> after == before,
{
}

/// Whatever transfer is asked for, and whether it fits in 128 bits or not:
/// the total is the same before and after, and where the transfer does not
/// succeed the store is as it was, so that no sender is left debited
/// without the receiver being credited.
pub proof fn lemma_transfer_conserves(
    before: DepsMut,
    after: DepsMut,
    info: MessageInfo,
    amount: u128,
    receiver: String,
    r: Option<Result<Response, ContractError>>,
)
    requires
        checked_transfer_fund_owes(before, after, info, amount, receiver, r),
        before.balances().dom().finite(),
    ensures
        after.balances().dom().finite(),
        total(after.balances()) == total(before.balances()),
        !(r matches Some(Ok(_))) ==> after == before,
{
}

/// Whatever withdrawal is asked for: where it succeeds the total is lower
/// by the amount and the sender's balance was at least as much, and where
/// it does not the store is as it was.
pub proof fn lemma_withdraw_conserves(
    before: DepsMut,
    after: DepsMut,
    info: MessageInfo,
    amount: u128,
    r: Result<Response, ContractError>,
)
    requires
        withdraw_fund_owes(before, after, info, amount, r),
        before.balances().dom().finite(),
    ensures
        after.balances().dom().finite(),
        r is Ok ==> total(after.balances()) + amount == total(before.balances()) && amount <= balance_of(
            before.balances(),
            info.sender@,
        ),
        r is Err ==> after == before,
{
}

} // verus!
