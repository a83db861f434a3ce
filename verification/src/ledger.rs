//! The ledger as mathematics: balances are a finite map from address to
//! amount, and each request is a function from the map before to the map
//! after, or to the reason for turning it down.

use vstd::prelude::*;
use crate::error::ContractError;
use crate::state::{address_before, lists_balances};

verus! {

/// What `who` holds: the entry, or nothing where there is none.
pub open spec fn balance_of(balances: Map<Seq<char>, u128>, who: Seq<char>) -> nat {
    if balances.contains_key(who) {
        balances[who] as nat
    } else {
        0
    }
}

/// The sum of all balance entries.
pub open spec fn total(balances: Map<Seq<char>, u128>) -> nat
    decreases balances.dom().len(),
    when balances.dom().finite()
    via total_decreases
{
    if balances.dom().len() == 0 {
        0
    } else {
        let who = balances.dom().choose();
        balances[who] as nat + total(balances.remove(who))
    }
}

#[via_fn]
proof fn total_decreases(balances: Map<Seq<char>, u128>) {
    if balances.dom().len() != 0 {
        let who = balances.dom().choose();
        assert(balances.dom().contains(who)) by {
            if balances.dom() =~= Set::empty() {
            }
        }
        assert(balances.remove(who).dom() =~= balances.dom().remove(who));
    }
}

/// The amount of the first coin of denomination `denom` among `funds`, or
/// zero where there is none.
pub open spec fn matched_amount(funds: Seq<(Seq<char>, u128)>, denom: Seq<char>) -> u128
    decreases funds.len(),
{
    if funds.len() == 0 {
        0
    } else if funds[0].0 == denom {
        funds[0].1
    } else {
        matched_amount(funds.drop_first(), denom)
    }
}

/// Whether `amount` can be added to what `who` holds within 128 bits.
pub open spec fn credit_fits(balances: Map<Seq<char>, u128>, who: Seq<char>, amount: u128) -> bool {
    balance_of(balances, who) + amount <= u128::MAX
}

/// The balances after `amount` was added to the entry of `who`, which is
/// made at zero first where there is none.
pub open spec fn credited(balances: Map<Seq<char>, u128>, who: Seq<char>, amount: u128) -> Map<Seq<char>, u128> {
    balances.insert(who, (balance_of(balances, who) + amount) as u128)
}

/// The balances after `amount` was taken from the entry of `who`.
pub open spec fn debited(balances: Map<Seq<char>, u128>, who: Seq<char>, amount: u128) -> Map<Seq<char>, u128> {
    balances.insert(who, (balance_of(balances, who) - amount) as u128)
}

/// A deposit of `amount` of the allowed denomination by `sender`.
pub open spec fn deposit_outcome(
    balances: Map<Seq<char>, u128>,
    sender: Seq<char>,
    amount: u128,
) -> Result<Map<Seq<char>, u128>, ContractError> {
    if amount == 0 {
        Err(ContractError::InvalidDepositAmount {})
    } else {
        Ok(credited(balances, sender, amount))
    }
}

/// A transfer of `amount` from `sender` to `receiver`. The rules are tried
/// in the order in which they stand here.
pub open spec fn transfer_outcome(
    balances: Map<Seq<char>, u128>,
    funds_empty: bool,
    receiver_valid: bool,
    sender: Seq<char>,
    receiver: Seq<char>,
    amount: u128,
) -> Result<Map<Seq<char>, u128>, ContractError> {
    if !funds_empty {
        Err(ContractError::NoEmptyFunds {})
    } else if !receiver_valid {
        Err(ContractError::InvalidAddress {})
    } else if amount == 0 {
        Err(ContractError::InvalidTransferAmount {})
    } else if !balances.contains_key(sender) {
        Err(ContractError::AddressHasNotDeposit {})
    } else if balances[sender] < amount {
        Err(ContractError::TransferFundsExceedsBalance {})
    } else {
        Ok(credited(debited(balances, sender, amount), receiver, amount))
    }
}

/// A withdrawal of `amount` by `sender`.
pub open spec fn withdraw_outcome(
    balances: Map<Seq<char>, u128>,
    funds_empty: bool,
    sender: Seq<char>,
    amount: u128,
) -> Result<Map<Seq<char>, u128>, ContractError> {
    if !funds_empty {
        Err(ContractError::NoEmptyFunds {})
    } else if amount == 0 {
        Err(ContractError::InvalidWithdrawAmount {})
    } else if !balances.contains_key(sender) {
        Err(ContractError::AddressHasNotDeposit {})
    } else if balances[sender] < amount {
        Err(ContractError::WithdrawFundsExceedsBalance {})
    } else {
        Ok(debited(balances, sender, amount))
    }
}

/// The total is the entry of any one account plus the total of the others.
pub proof fn lemma_total_remove(balances: Map<Seq<char>, u128>, who: Seq<char>)
    requires
        balances.dom().finite(),
        balances.contains_key(who),
    ensures
        total(balances) == balances[who] + total(balances.remove(who)),
    decreases balances.dom().len(),
{
    let first = balances.dom().choose();
    assert(balances.dom().len() != 0) by {
        if balances.dom().len() == 0 {
            assert(balances.dom() =~= Set::empty());
        }
    }
    assert(balances.contains_key(first));
    if first != who {
        let rest_first = balances.remove(first);
        let rest_who = balances.remove(who);
        assert(rest_first.dom() =~= balances.dom().remove(first));
        assert(rest_who.dom() =~= balances.dom().remove(who));
        lemma_total_remove(rest_first, who);
        lemma_total_remove(rest_who, first);
        assert(rest_first.remove(who) =~= rest_who.remove(first));
    }
}

/// Writing an entry changes the total by the difference between the new
/// amount and what the account held before.
pub proof fn lemma_total_insert(balances: Map<Seq<char>, u128>, who: Seq<char>, amount: u128)
    requires
        balances.dom().finite(),
    ensures
        total(balances.insert(who, amount)) + balance_of(balances, who) == total(balances) + amount,
{
    let after = balances.insert(who, amount);
    assert(after.dom() =~= balances.dom().insert(who));
    lemma_total_remove(after, who);
    assert(after.remove(who) =~= balances.remove(who));
    if balances.contains_key(who) {
        lemma_total_remove(balances, who);
    } else {
        assert(balances.remove(who) =~= balances);
    }
}

/// The sum of the amounts of a listing.
pub open spec fn listed_total(entries: Seq<(Seq<char>, u128)>) -> nat
    decreases entries.len(),
{
    if entries.len() == 0 {
        0
    } else {
        listed_total(entries.drop_last()) + entries.last().1 as nat
    }
}

/// No address comes before itself.
pub proof fn lemma_address_not_before_itself(a: Seq<char>)
    ensures
        !address_before(a, a),
    decreases a.len(),
{
    if a.len() > 0 {
        lemma_address_not_before_itself(a.drop_first());
    }
}

/// A listing of the balances shows that they are finitely many, and its
/// amounts add up to their total.
pub proof fn lemma_listing_total(entries: Seq<(Seq<char>, u128)>, balances: Map<Seq<char>, u128>)
    requires
        lists_balances(entries, balances),
    ensures
        balances.dom().finite(),
        total(balances) == listed_total(entries),
    decreases entries.len(),
{
    if entries.len() == 0 {
        assert(balances.dom() =~= Set::empty()) by {
            assert forall|a: Seq<char>| !balances.dom().contains(a) by {
                if balances.contains_key(a) {
                    let i = choose|i: int| 0 <= i < entries.len() && #[trigger] entries[i].0 == a;
                }
            }
        }
    } else {
        let last = entries.len() - 1;
        let who = entries[last].0;
        let rest = entries.drop_last();
        let others = balances.remove(who);
        assert(balances.contains_pair(entries[last].0, entries[last].1));
        assert forall|i: int| 0 <= i < rest.len() implies #[trigger] others.contains_pair(rest[i].0, rest[i].1) by {
            assert(balances.contains_pair(entries[i].0, entries[i].1));
            assert(address_before(entries[i].0, entries[last].0));
            lemma_address_not_before_itself(who);
        }
        assert forall|a: Seq<char>| #[trigger] others.contains_key(a) implies exists|i: int|
            0 <= i < rest.len() && #[trigger] rest[i].0 == a by {
            assert(balances.contains_key(a));
            let i = choose|i: int| 0 <= i < entries.len() && #[trigger] entries[i].0 == a;
            assert(i != last);
            assert(rest[i].0 == a);
        }
        assert forall|i: int, j: int| 0 <= i < j < rest.len() implies address_before(
            #[trigger] rest[i].0,
            #[trigger] rest[j].0,
        ) by {
            assert(address_before(entries[i].0, entries[j].0));
        }
        lemma_listing_total(rest, others);
        assert(balances.dom() =~= others.dom().insert(who));
        lemma_total_remove(balances, who);
    }
}

/// The amounts of the first entries of a listing add up to no more than
/// those of all.
pub proof fn lemma_listed_total_grows(entries: Seq<(Seq<char>, u128)>, n: int)
    requires
        0 <= n <= entries.len(),
    ensures
        listed_total(entries.take(n)) <= listed_total(entries),
    decreases entries.len() - n,
{
    if n == entries.len() {
        assert(entries.take(n) =~= entries);
    } else {
        lemma_listed_total_grows(entries.drop_last(), n);
        assert(entries.drop_last().take(n) =~= entries.take(n));
    }
}

/// A request as the rules see it: who asks, for how much, and what the
/// checks of the request itself have found.
pub enum Request {
    /// `amount` is what the attached funds hold of the allowed denomination.
    Deposit { sender: Seq<char>, amount: u128 },
    Transfer { funds_empty: bool, receiver_valid: bool, sender: Seq<char>, receiver: Seq<char>, amount: u128 },
    Withdraw { funds_empty: bool, sender: Seq<char>, amount: u128 },
}

/// The outcome of `request` on `balances`.
pub open spec fn outcome(balances: Map<Seq<char>, u128>, request: Request) -> Result<
    Map<Seq<char>, u128>,
    ContractError,
> {
    match request {
        Request::Deposit { sender, amount } => deposit_outcome(balances, sender, amount),
        Request::Transfer { funds_empty, receiver_valid, sender, receiver, amount } => transfer_outcome(
            balances,
            funds_empty,
            receiver_valid,
            sender,
            receiver,
            amount,
        ),
        Request::Withdraw { funds_empty, sender, amount } => withdraw_outcome(
            balances,
            funds_empty,
            sender,
            amount,
        ),
    }
}

/// The balances after `request`: those of its outcome where it succeeds,
/// and the same as before where it is turned down.
pub open spec fn after(balances: Map<Seq<char>, u128>, request: Request) -> Map<Seq<char>, u128> {
    match outcome(balances, request) {
        Ok(changed) => changed,
        Err(_) => balances,
    }
}

/// Whether the credit that `request` makes, if any, fits in 128 bits.
pub open spec fn fits(balances: Map<Seq<char>, u128>, request: Request) -> bool {
    match request {
        Request::Deposit { sender, amount } => credit_fits(balances, sender, amount),
        Request::Transfer { funds_empty, receiver_valid, sender, receiver, amount } => credit_fits(
            debited(balances, sender, amount),
            receiver,
            amount,
        ),
        Request::Withdraw { funds_empty, sender, amount } => true,
    }
}

/// What `request` brings into the ledger where it succeeds: a deposit its
/// amount, a withdrawal the negative of its amount, a transfer nothing.
pub open spec fn inflow(request: Request) -> int {
    match request {
        Request::Deposit { sender, amount } => amount as int,
        Request::Transfer { funds_empty, receiver_valid, sender, receiver, amount } => 0,
        Request::Withdraw { funds_empty, sender, amount } => -(amount as int),
    }
}

/// Whether each of `requests`, made in turn, succeeds within 128 bits.
pub open spec fn all_succeed(balances: Map<Seq<char>, u128>, requests: Seq<Request>) -> bool
    decreases requests.len(),
{
    requests.len() > 0 ==> {
        &&& outcome(balances, requests[0]) is Ok
        &&& fits(balances, requests[0])
        &&& all_succeed(after(balances, requests[0]), requests.drop_first())
    }
}

/// The balances after each of `requests` was made in turn.
pub open spec fn after_all(balances: Map<Seq<char>, u128>, requests: Seq<Request>) -> Map<Seq<char>, u128>
    decreases requests.len(),
{
    if requests.len() == 0 {
        balances
    } else {
        after_all(after(balances, requests[0]), requests.drop_first())
    }
}

/// The deposits of `requests` less its withdrawals.
pub open spec fn net_inflow(requests: Seq<Request>) -> int
    decreases requests.len(),
{
    if requests.len() == 0 {
        0
    } else {
        inflow(requests[0]) + net_inflow(requests.drop_first())
    }
}

/// A successful deposit raises the total by the amount deposited, and
/// touches no entry but the sender's.
pub proof fn lemma_deposit_adds_to_total(balances: Map<Seq<char>, u128>, sender: Seq<char>, amount: u128)
    requires
        balances.dom().finite(),
        credit_fits(balances, sender, amount),
    ensures
        deposit_outcome(balances, sender, amount) matches Ok(changed) ==> {
            &&& changed.dom().finite()
            &&& total(changed) == total(balances) + amount
            &&& balance_of(changed, sender) == balance_of(balances, sender) + amount
            &&& forall|other: Seq<char>| other != sender ==> balance_of(changed, other) == balance_of(balances, other)
        },
{
    lemma_total_insert(balances, sender, (balance_of(balances, sender) + amount) as u128);
}

/// A successful withdrawal lowers the total by the amount withdrawn, and
/// the sender's balance by as much: it never goes below zero.
pub proof fn lemma_withdraw_takes_from_total(
    balances: Map<Seq<char>, u128>,
    funds_empty: bool,
    sender: Seq<char>,
    amount: u128,
)
    requires
        balances.dom().finite(),
    ensures
        withdraw_outcome(balances, funds_empty, sender, amount) matches Ok(changed) ==> {
            &&& changed.dom().finite()
            &&& total(changed) + amount == total(balances)
            &&& balance_of(changed, sender) + amount == balance_of(balances, sender)
            &&& forall|other: Seq<char>| other != sender ==> balance_of(changed, other) == balance_of(balances, other)
        },
{
    if withdraw_outcome(balances, funds_empty, sender, amount) is Ok {
        lemma_total_insert(balances, sender, (balance_of(balances, sender) - amount) as u128);
    }
}

/// A successful transfer leaves the total as it is: what the sender gives,
/// the receiver gets, and a transfer to oneself changes nothing.
pub proof fn lemma_transfer_keeps_total(
    balances: Map<Seq<char>, u128>,
    funds_empty: bool,
    receiver_valid: bool,
    sender: Seq<char>,
    receiver: Seq<char>,
    amount: u128,
)
    requires
        balances.dom().finite(),
        credit_fits(debited(balances, sender, amount), receiver, amount),
    ensures
        transfer_outcome(balances, funds_empty, receiver_valid, sender, receiver, amount) matches Ok(changed) ==> {
            &&& changed.dom().finite()
            &&& total(changed) == total(balances)
            &&& sender == receiver ==> changed == balances
            &&& sender != receiver ==> balance_of(changed, sender) + amount == balance_of(balances, sender)
            &&& sender != receiver ==> balance_of(changed, receiver) == balance_of(balances, receiver) + amount
            &&& forall|other: Seq<char>|
                other != sender && other != receiver ==> balance_of(changed, other) == balance_of(balances, other)
        },
{
    if transfer_outcome(balances, funds_empty, receiver_valid, sender, receiver, amount) is Ok {
        let left = debited(balances, sender, amount);
        lemma_total_insert(balances, sender, (balance_of(balances, sender) - amount) as u128);
        lemma_total_insert(left, receiver, (balance_of(left, receiver) + amount) as u128);
        if sender == receiver {
            assert(credited(left, receiver, amount) =~= balances);
        }
    }
}

/// Conservation: after any run of requests that succeed, the total is what
/// it was plus the deposits less the withdrawals; transfers do not count.
pub proof fn lemma_conservation(balances: Map<Seq<char>, u128>, requests: Seq<Request>)
    requires
        balances.dom().finite(),
        all_succeed(balances, requests),
    ensures
        after_all(balances, requests).dom().finite(),
        total(after_all(balances, requests)) == total(balances) + net_inflow(requests),
    decreases requests.len(),
{
    if requests.len() > 0 {
        match requests[0] {
            Request::Deposit { sender, amount } => {
                lemma_deposit_adds_to_total(balances, sender, amount);
            },
            Request::Transfer { funds_empty, receiver_valid, sender, receiver, amount } => {
                lemma_transfer_keeps_total(balances, funds_empty, receiver_valid, sender, receiver, amount);
            },
            Request::Withdraw { funds_empty, sender, amount } => {
                lemma_withdraw_takes_from_total(balances, funds_empty, sender, amount);
            },
        }
        lemma_conservation(after(balances, requests[0]), requests.drop_first());
    }
}

/// Conservation from the start: a ledger that began without entries holds
/// in total the deposits less the withdrawals made since.
pub proof fn lemma_conservation_from_empty(requests: Seq<Request>)
    requires
        all_succeed(Map::<Seq<char>, u128>::empty(), requests),
    ensures
        total(after_all(Map::<Seq<char>, u128>::empty(), requests)) == net_inflow(requests),
{
    let start = Map::<Seq<char>, u128>::empty();
    assert(start.dom() =~= Set::empty());
    lemma_conservation(start, requests);
}

/// Non-negativity: a transfer or a withdrawal of more than the sender holds
/// is turned down, with the error of that rule where the sender has an
/// entry and the earlier rules are met, and leaves every balance as it was.
pub proof fn lemma_overdraft_refused(
    balances: Map<Seq<char>, u128>,
    funds_empty: bool,
    receiver_valid: bool,
    sender: Seq<char>,
    receiver: Seq<char>,
    amount: u128,
)
    requires
        amount > balance_of(balances, sender),
    ensures
        transfer_outcome(balances, funds_empty, receiver_valid, sender, receiver, amount) is Err,
        withdraw_outcome(balances, funds_empty, sender, amount) is Err,
        funds_empty && receiver_valid && balances.contains_key(sender) ==> transfer_outcome(
            balances,
            funds_empty,
            receiver_valid,
            sender,
            receiver,
            amount,
        ) == Err::<Map<Seq<char>, u128>, ContractError>(ContractError::TransferFundsExceedsBalance {}),
        funds_empty && balances.contains_key(sender) ==> withdraw_outcome(balances, funds_empty, sender, amount)
            == Err::<Map<Seq<char>, u128>, ContractError>(ContractError::WithdrawFundsExceedsBalance {}),
        after(balances, Request::Transfer { funds_empty, receiver_valid, sender, receiver, amount }) == balances,
        after(balances, Request::Withdraw { funds_empty, sender, amount }) == balances,
{
}

/// Rejection repeats: a request that is turned down leaves the balances as
/// they were, so the same request meets the same balances again and is
/// turned down for the same reason.
pub proof fn lemma_rejection_repeats(balances: Map<Seq<char>, u128>, request: Request)
    requires
        outcome(balances, request) is Err,
    ensures
        after(balances, request) == balances,
        outcome(after(balances, request), request) == outcome(balances, request),
        after(after(balances, request), request) == balances,
{
}

/// What `request` adds to the balance of `who` where it succeeds.
pub open spec fn credit_to(request: Request, who: Seq<char>) -> nat {
    match request {
        Request::Deposit { sender, amount } => if who == sender { amount as nat } else { 0 },
        Request::Transfer { funds_empty, receiver_valid, sender, receiver, amount } => if who == receiver {
            amount as nat
        } else {
            0
        },
        Request::Withdraw { funds_empty, sender, amount } => 0,
    }
}

/// What `request` takes from the balance of `who` where it succeeds.
pub open spec fn debit_from(request: Request, who: Seq<char>) -> nat {
    match request {
        Request::Deposit { sender, amount } => 0,
        Request::Transfer { funds_empty, receiver_valid, sender, receiver, amount } => if who == sender {
            amount as nat
        } else {
            0
        },
        Request::Withdraw { funds_empty, sender, amount } => if who == sender { amount as nat } else { 0 },
    }
}

/// Non-negativity, account by account: after a request that succeeds,
/// every balance is what it was plus the credit less the debit, as numbers
/// without a limit. So no debit exceeds the balance it is taken from, and
/// no balance is what is left of a subtraction that wrapped around.
pub proof fn lemma_balances_exact(balances: Map<Seq<char>, u128>, request: Request, who: Seq<char>)
    requires
        outcome(balances, request) is Ok,
        fits(balances, request),
    ensures
        debit_from(request, who) <= balance_of(balances, who),
        balance_of(after(balances, request), who) == balance_of(balances, who) + credit_to(request, who)
            - debit_from(request, who),
{
}

} // verus!
