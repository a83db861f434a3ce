use cosmwasm_std::testing::{MockApi, MockStorage};
use cosmwasm_std::{
    Addr, Api, CanonicalAddr, RecoverPubkeyError, StdError, StdResult, Storage, Uint128,
    VerificationError,
};
use custody_ledger::contract::execute::{
    allowed_amount, checked_deposit_fund, checked_transfer_fund, credit, debit, deposit_fund,
    move_funds, transfer_fund, withdraw_fund,
};
use custody_ledger::contract::query::{
    all_deposits, checked_totaldeposit, deposit, deposits_of, state, sum_entries, totaldeposit,
};
use custody_ledger::contract::{
    checked_execute, checked_query, execute, instantiate, query, CONTRACT_NAME, CONTRACT_VERSION,
};
use custody_ledger::error::ContractError;
use custody_ledger::msg::{
    BankSend, Coin, Event, ExecuteMsg, GetAllDepositResponse, GetDepositResponse,
    GetStateResponse, GetTotalDepositResponse, InstantiateMsg, MessageInfo, QueryMsg,
    QueryResponse, Response,
};
use custody_ledger::state::{Config, Deps, DepsMut};

const A: &str = "cosmos1xv9tklw7d82sezh9ha4c6w7422k3halglxxxx0";
const B: &str = "cosmos1xv9tklw7d82sezh9ha4c6w7422k3halglxxxx1";
const C: &str = "cosmos1xv9tklw7d82sezh9ha4c6w7422k3halglxxxx2";

/// Address rules of a chain whose addresses begin with `cosmos1`.
struct CosmosApi;

impl Api for CosmosApi {
    fn addr_validate(&self, human: &str) -> StdResult<Addr> {
        if human.starts_with("cosmos1") {
            Ok(Addr::unchecked(human))
        } else {
            Err(StdError::generic_err("not an address of this chain"))
        }
    }

    fn addr_canonicalize(&self, human: &str) -> StdResult<CanonicalAddr> {
        Ok(CanonicalAddr::from(human.as_bytes()))
    }

    fn addr_humanize(&self, canonical: &CanonicalAddr) -> StdResult<Addr> {
        Ok(Addr::unchecked(String::from_utf8_lossy(canonical.as_slice()).into_owned()))
    }

    fn secp256k1_verify(&self, _: &[u8], _: &[u8], _: &[u8]) -> Result<bool, VerificationError> {
        Ok(false)
    }

    fn secp256k1_recover_pubkey(
        &self,
        _: &[u8],
        _: &[u8],
        _: u8,
    ) -> Result<Vec<u8>, RecoverPubkeyError> {
        Ok(Vec::new())
    }

    fn ed25519_verify(&self, _: &[u8], _: &[u8], _: &[u8]) -> Result<bool, VerificationError> {
        Ok(false)
    }

    fn ed25519_batch_verify(
        &self,
        _: &[&[u8]],
        _: &[&[u8]],
        _: &[&[u8]],
    ) -> Result<bool, VerificationError> {
        Ok(false)
    }

    fn debug(&self, _: &str) {}
}

fn coin(amount: u128, denom: &str) -> Coin {
    Coin { denom: denom.to_string(), amount }
}

fn from(sender: &str, funds: Vec<Coin>) -> MessageInfo {
    MessageInfo { sender: sender.to_string(), funds }
}

fn setup(deps: &mut DepsMut) {
    instantiate(deps, from(A, vec![]), InstantiateMsg { allowed_denom: "tsy".to_string() }).unwrap();
}

fn pay_in(deps: &mut DepsMut, sender: &str, amount: u128) {
    deposit_fund(deps, from(sender, vec![coin(amount, "tsy")])).unwrap();
}

fn balance(deps: &DepsMut, owner: &str) -> Option<u128> {
    match deposit(&deps.as_ref(), owner.to_string()) {
        Ok(found) => Some(found.deposit),
        Err(ContractError::NotFound {}) => None,
        Err(other) => panic!("the store failed: {:?}", other),
    }
}

fn sum(deps: &DepsMut) -> u128 {
    totaldeposit(&deps.as_ref()).unwrap().totaldeposit
}

fn balances_map() -> cw_storage_plus::Map<Addr, Uint128> {
    cw_storage_plus::Map::new("balances")
}

#[test]
fn instantiate_reports_the_denomination() {
    let mut storage = MockStorage::new();
    let mut deps = DepsMut { storage: &mut storage, api: &CosmosApi };
    let res = instantiate(
        &mut deps,
        from(A, vec![coin(5, "tsy")]),
        InstantiateMsg { allowed_denom: "tsy".to_string() },
    )
    .unwrap();
    assert_eq!(
        res,
        Response { event: Event::Instantiate { allowed_denom: "tsy".to_string() }, messages: vec![] }
    );
    assert_eq!(
        state(&deps.as_ref()).unwrap(),
        GetStateResponse { allowed_denom: "tsy".to_string() }
    );
    // setting up credits nobody, whatever funds came with it
    assert_eq!(all_deposits(&deps.as_ref()).unwrap(), vec![]);
}

#[test]
fn instantiate_records_the_version() {
    let mut storage = MockStorage::new();
    let mut deps = DepsMut { storage: &mut storage, api: &CosmosApi };
    setup(&mut deps);
    let version = cw2::get_contract_version(&storage).unwrap();
    assert_eq!(version.contract, CONTRACT_NAME);
    assert_eq!(version.version, CONTRACT_VERSION);
}

#[test]
fn instantiate_again_replaces_the_denomination_only() {
    let mut storage = MockStorage::new();
    let mut deps = DepsMut { storage: &mut storage, api: &CosmosApi };
    setup(&mut deps);
    pay_in(&mut deps, A, 10);
    instantiate(&mut deps, from(A, vec![]), InstantiateMsg { allowed_denom: "thi".to_string() })
        .unwrap();
    assert_eq!(state(&deps.as_ref()).unwrap().allowed_denom, "thi");
    assert_eq!(balance(&deps, A), Some(10));
}

#[test]
fn state_of_a_store_without_configuration_fails() {
    let mut storage = MockStorage::new();
    let deps = Deps { storage: &storage, api: &CosmosApi };
    assert!(matches!(state(&deps), Err(ContractError::Std(_))));
    let mut deps = DepsMut { storage: &mut storage, api: &CosmosApi };
    let res = deposit_fund(&mut deps, from(A, vec![coin(1, "tsy")]));
    assert!(matches!(res, Err(ContractError::Std(_))));
    let res = withdraw_fund(&mut deps, from(A, vec![]), 1);
    assert!(matches!(res, Err(ContractError::Std(_))));
}

#[test]
fn deposit_credits_the_sender() {
    let mut storage = MockStorage::new();
    let mut deps = DepsMut { storage: &mut storage, api: &CosmosApi };
    setup(&mut deps);
    assert_eq!(balance(&deps, A), None);
    let res = deposit_fund(&mut deps, from(A, vec![coin(1000, "tsy")])).unwrap();
    assert_eq!(
        res,
        Response { event: Event::Deposit { depositor: A.to_string(), amount: 1000 }, messages: vec![] }
    );
    assert_eq!(balance(&deps, A), Some(1000));
    pay_in(&mut deps, A, 500);
    assert_eq!(balance(&deps, A), Some(1500));
    assert_eq!(balance(&deps, B), None);
}

#[test]
fn deposit_counts_the_first_coin_of_the_allowed_denomination() {
    let mut storage = MockStorage::new();
    let mut deps = DepsMut { storage: &mut storage, api: &CosmosApi };
    setup(&mut deps);
    let funds = vec![coin(5, "thi"), coin(7, "tsy"), coin(9, "tsy"), coin(11, "abc")];
    let res = deposit_fund(&mut deps, from(A, funds)).unwrap();
    assert_eq!(res.event, Event::Deposit { depositor: A.to_string(), amount: 7 });
    assert_eq!(balance(&deps, A), Some(7));
    assert_eq!(sum(&deps), 7);
}

#[test]
fn deposit_of_nothing_leaves_the_balance() {
    let mut storage = MockStorage::new();
    let mut deps = DepsMut { storage: &mut storage, api: &CosmosApi };
    setup(&mut deps);
    pay_in(&mut deps, A, 1000);
    let res = deposit_fund(&mut deps, from(A, vec![coin(0, "tsy")]));
    assert!(matches!(res, Err(ContractError::InvalidDepositAmount {})));
    let res = deposit_fund(&mut deps, from(A, vec![coin(1000, "thi")]));
    assert!(matches!(res, Err(ContractError::InvalidDepositAmount {})));
    let res = deposit_fund(&mut deps, from(A, vec![]));
    assert!(matches!(res, Err(ContractError::InvalidDepositAmount {})));
    // a first coin of zero hides a later one
    let res = deposit_fund(&mut deps, from(B, vec![coin(0, "tsy"), coin(3, "tsy")]));
    assert!(matches!(res, Err(ContractError::InvalidDepositAmount {})));
    assert_eq!(balance(&deps, A), Some(1000));
    assert_eq!(balance(&deps, B), None);
}

#[test]
fn transfer_moves_the_amount() {
    let mut storage = MockStorage::new();
    let mut deps = DepsMut { storage: &mut storage, api: &CosmosApi };
    setup(&mut deps);
    pay_in(&mut deps, A, 1000);
    let res = transfer_fund(&mut deps, from(A, vec![]), 2, B.to_string()).unwrap();
    assert_eq!(
        res,
        Response {
            event: Event::Transfer { sender: A.to_string(), receiver: B.to_string(), amount: 2 },
            messages: vec![],
        }
    );
    assert_eq!(balance(&deps, A), Some(998));
    assert_eq!(balance(&deps, B), Some(2));
    assert_eq!(sum(&deps), 1000);
    // the whole balance may go: the entry stays, at zero
    transfer_fund(&mut deps, from(A, vec![]), 998, B.to_string()).unwrap();
    assert_eq!(balance(&deps, A), Some(0));
    assert_eq!(balance(&deps, B), Some(1000));
}

#[test]
fn transfer_beyond_the_balance_changes_nothing() {
    let mut storage = MockStorage::new();
    let mut deps = DepsMut { storage: &mut storage, api: &CosmosApi };
    setup(&mut deps);
    pay_in(&mut deps, A, 1000);
    pay_in(&mut deps, B, 2);
    let res = transfer_fund(&mut deps, from(A, vec![]), 10000, B.to_string());
    assert!(matches!(res, Err(ContractError::TransferFundsExceedsBalance {})));
    let res = transfer_fund(&mut deps, from(A, vec![]), 1001, C.to_string());
    assert!(matches!(res, Err(ContractError::TransferFundsExceedsBalance {})));
    assert_eq!(balance(&deps, A), Some(1000));
    assert_eq!(balance(&deps, B), Some(2));
    assert_eq!(balance(&deps, C), None);
}

#[test]
fn transfer_to_oneself_changes_nothing_but_passes_the_rules() {
    let mut storage = MockStorage::new();
    let mut deps = DepsMut { storage: &mut storage, api: &CosmosApi };
    setup(&mut deps);
    pay_in(&mut deps, A, 1000);
    transfer_fund(&mut deps, from(A, vec![]), 1000, A.to_string()).unwrap();
    assert_eq!(balance(&deps, A), Some(1000));
    assert_eq!(sum(&deps), 1000);
    let res = transfer_fund(&mut deps, from(A, vec![]), 1001, A.to_string());
    assert!(matches!(res, Err(ContractError::TransferFundsExceedsBalance {})));
    let res = transfer_fund(&mut deps, from(A, vec![]), 0, A.to_string());
    assert!(matches!(res, Err(ContractError::InvalidTransferAmount {})));
    let res = transfer_fund(&mut deps, from(C, vec![]), 1, C.to_string());
    assert!(matches!(res, Err(ContractError::AddressHasNotDeposit {})));
    assert_eq!(balance(&deps, A), Some(1000));
    assert_eq!(balance(&deps, C), None);
}

#[test]
fn transfer_rules_come_in_their_order() {
    let mut storage = MockStorage::new();
    let mut deps = DepsMut { storage: &mut storage, api: &CosmosApi };
    setup(&mut deps);
    pay_in(&mut deps, A, 10);
    // funds before the address
    let res = transfer_fund(&mut deps, from(C, vec![coin(1, "thi")]), 0, "nowhere".to_string());
    assert!(matches!(res, Err(ContractError::NoEmptyFunds {})));
    // the address before the amount
    let res = transfer_fund(&mut deps, from(C, vec![]), 0, "nowhere".to_string());
    assert!(matches!(res, Err(ContractError::InvalidAddress {})));
    // the amount before the sender's entry
    let res = transfer_fund(&mut deps, from(C, vec![]), 0, B.to_string());
    assert!(matches!(res, Err(ContractError::InvalidTransferAmount {})));
    // the sender's entry before the balance
    let res = transfer_fund(&mut deps, from(C, vec![]), 11, B.to_string());
    assert!(matches!(res, Err(ContractError::AddressHasNotDeposit {})));
    assert_eq!(balance(&deps, A), Some(10));
    assert_eq!(balance(&deps, B), None);
    assert_eq!(balance(&deps, C), None);
}

#[test]
fn transfer_asks_the_chain_for_the_address_rules() {
    let mut storage = MockStorage::new();
    let api = MockApi::default();
    let mut deps = DepsMut { storage: &mut storage, api: &api };
    setup(&mut deps);
    pay_in(&mut deps, A, 10);
    let valid = "cosmwasm1h34lmpywh4upnjdg90cjf4j70aee6z8qqfspugamjp42e4q28kqs8s7vcp";
    transfer_fund(&mut deps, from(A, vec![]), 4, valid.to_string()).unwrap();
    assert_eq!(balance(&deps, valid), Some(4));
    let res = transfer_fund(&mut deps, from(A, vec![]), 4, B.to_string());
    assert!(matches!(res, Err(ContractError::InvalidAddress {})));
    let res = transfer_fund(&mut deps, from(A, vec![]), 4, "".to_string());
    assert!(matches!(res, Err(ContractError::InvalidAddress {})));
    assert_eq!(balance(&deps, A), Some(6));
    assert_eq!(balance(&deps, B), None);
}

#[test]
fn move_funds_skips_the_checks_of_the_request() {
    let mut storage = MockStorage::new();
    let mut deps = DepsMut { storage: &mut storage, api: &CosmosApi };
    setup(&mut deps);
    pay_in(&mut deps, A, 10);
    move_funds(&mut deps, &A.to_string(), &"nowhere".to_string(), 3).unwrap();
    assert_eq!(balance(&deps, A), Some(7));
    assert_eq!(balance(&deps, "nowhere"), Some(3));
    let res = move_funds(&mut deps, &A.to_string(), &B.to_string(), 0);
    assert!(matches!(res, Err(ContractError::InvalidTransferAmount {})));
    let res = move_funds(&mut deps, &B.to_string(), &A.to_string(), 1);
    assert!(matches!(res, Err(ContractError::AddressHasNotDeposit {})));
    let res = move_funds(&mut deps, &A.to_string(), &B.to_string(), 8);
    assert!(matches!(res, Err(ContractError::TransferFundsExceedsBalance {})));
    assert_eq!(sum(&deps), 10);
}

#[test]
fn withdraw_debits_and_instructs_the_bank() {
    let mut storage = MockStorage::new();
    let mut deps = DepsMut { storage: &mut storage, api: &CosmosApi };
    setup(&mut deps);
    pay_in(&mut deps, A, 1000);
    let res = withdraw_fund(&mut deps, from(A, vec![]), 2).unwrap();
    assert_eq!(
        res,
        Response {
            event: Event::Withdraw { receiver: A.to_string(), amount: 2 },
            messages: vec![BankSend { to_address: A.to_string(), amount: vec![coin(2, "tsy")] }],
        }
    );
    assert_eq!(balance(&deps, A), Some(998));
    assert_eq!(sum(&deps), 998);
}

#[test]
fn withdraw_of_everything_keeps_the_entry_at_zero() {
    let mut storage = MockStorage::new();
    let mut deps = DepsMut { storage: &mut storage, api: &CosmosApi };
    setup(&mut deps);
    pay_in(&mut deps, A, 1000);
    withdraw_fund(&mut deps, from(A, vec![]), 1000).unwrap();
    assert_eq!(balance(&deps, A), Some(0));
    assert_eq!(
        all_deposits(&deps.as_ref()).unwrap(),
        vec![GetAllDepositResponse { address: A.to_string(), totaldeposit: 0 }]
    );
    let res = withdraw_fund(&mut deps, from(A, vec![]), 1);
    assert!(matches!(res, Err(ContractError::WithdrawFundsExceedsBalance {})));
    assert_eq!(balance(&deps, A), Some(0));
}

#[test]
fn withdraw_rules_come_in_their_order() {
    let mut storage = MockStorage::new();
    let mut deps = DepsMut { storage: &mut storage, api: &CosmosApi };
    setup(&mut deps);
    pay_in(&mut deps, A, 10);
    let res = withdraw_fund(&mut deps, from(C, vec![coin(0, "tsy")]), 0);
    assert!(matches!(res, Err(ContractError::NoEmptyFunds {})));
    let res = withdraw_fund(&mut deps, from(C, vec![]), 0);
    assert!(matches!(res, Err(ContractError::InvalidWithdrawAmount {})));
    let res = withdraw_fund(&mut deps, from(C, vec![]), 11);
    assert!(matches!(res, Err(ContractError::AddressHasNotDeposit {})));
    let res = withdraw_fund(&mut deps, from(A, vec![]), 11);
    assert!(matches!(res, Err(ContractError::WithdrawFundsExceedsBalance {})));
    assert_eq!(balance(&deps, A), Some(10));
    assert_eq!(balance(&deps, C), None);
}

#[test]
fn account_without_deposit_is_not_found() {
    let mut storage = MockStorage::new();
    let mut deps = DepsMut { storage: &mut storage, api: &CosmosApi };
    setup(&mut deps);
    pay_in(&mut deps, A, 1000);
    let res = deposit(&deps.as_ref(), C.to_string());
    assert!(matches!(res, Err(ContractError::NotFound {})));
    let res = query(&deps.as_ref(), QueryMsg::GetDeposit { owner: C.to_string() });
    assert!(matches!(res, Err(ContractError::NotFound {})));
    let res = transfer_fund(&mut deps, from(C, vec![]), 1, A.to_string());
    assert!(matches!(res, Err(ContractError::AddressHasNotDeposit {})));
    let res = withdraw_fund(&mut deps, from(C, vec![]), 1);
    assert!(matches!(res, Err(ContractError::AddressHasNotDeposit {})));
    assert_eq!(
        deposit(&deps.as_ref(), A.to_string()).unwrap(),
        GetDepositResponse { address: A.to_string(), deposit: 1000 }
    );
}

#[test]
fn all_deposits_come_in_ascending_order() {
    let mut storage = MockStorage::new();
    let mut deps = DepsMut { storage: &mut storage, api: &CosmosApi };
    setup(&mut deps);
    pay_in(&mut deps, "cosmos1b", 2);
    pay_in(&mut deps, "cosmos1a", 1);
    pay_in(&mut deps, "cosmos1c", 3);
    pay_in(&mut deps, "cosmos1ab", 4);
    pay_in(&mut deps, "cosmos1", 5);
    withdraw_fund(&mut deps, from("cosmos1a", vec![]), 1).unwrap();
    let expected: Vec<GetAllDepositResponse> =
        vec![("cosmos1", 5), ("cosmos1a", 0), ("cosmos1ab", 4), ("cosmos1b", 2), ("cosmos1c", 3)]
            .into_iter()
            .map(|(address, totaldeposit)| GetAllDepositResponse {
                address: address.to_string(),
                totaldeposit,
            })
            .collect();
    assert_eq!(all_deposits(&deps.as_ref()).unwrap(), expected);
    match query(&deps.as_ref(), QueryMsg::GetAllDeposit {}).unwrap() {
        QueryResponse::AllDeposit(listed) => assert_eq!(listed, expected),
        other => panic!("unexpected answer {:?}", other),
    }
    assert_eq!(sum(&deps), 14);
}

#[test]
fn total_follows_deposits_and_withdrawals() {
    let mut storage = MockStorage::new();
    let mut deps = DepsMut { storage: &mut storage, api: &CosmosApi };
    setup(&mut deps);
    assert_eq!(sum(&deps), 0);
    pay_in(&mut deps, A, 1000);
    assert_eq!(sum(&deps), 1000);
    pay_in(&mut deps, B, 500);
    assert_eq!(sum(&deps), 1500);
    transfer_fund(&mut deps, from(A, vec![]), 200, C.to_string()).unwrap();
    assert_eq!(sum(&deps), 1500);
    withdraw_fund(&mut deps, from(C, vec![]), 150).unwrap();
    assert_eq!(sum(&deps), 1350);
    withdraw_fund(&mut deps, from(B, vec![]), 500).unwrap();
    assert_eq!(sum(&deps), 850);
    // requests that are turned down count for nothing
    assert!(withdraw_fund(&mut deps, from(B, vec![]), 1).is_err());
    assert!(deposit_fund(&mut deps, from(B, vec![coin(9, "thi")])).is_err());
    assert_eq!(sum(&deps), 850);
    assert_eq!(
        query(&deps.as_ref(), QueryMsg::GetTotalDeposit {}).unwrap(),
        QueryResponse::TotalDeposit(GetTotalDepositResponse { totaldeposit: 850 })
    );
    assert_eq!(balance(&deps, A), Some(800));
    assert_eq!(balance(&deps, B), Some(0));
    assert_eq!(balance(&deps, C), Some(50));
}

#[test]
fn rejected_request_repeats_with_the_same_error() {
    let mut storage = MockStorage::new();
    let mut deps = DepsMut { storage: &mut storage, api: &CosmosApi };
    setup(&mut deps);
    pay_in(&mut deps, A, 1000);
    let before = all_deposits(&deps.as_ref()).unwrap();
    for _ in 0..3 {
        let res = transfer_fund(&mut deps, from(A, vec![]), 10000, B.to_string());
        assert!(matches!(res, Err(ContractError::TransferFundsExceedsBalance {})));
        let res = withdraw_fund(&mut deps, from(B, vec![]), 1);
        assert!(matches!(res, Err(ContractError::AddressHasNotDeposit {})));
        let res = execute(&mut deps, from(A, vec![coin(1, "thi")]), ExecuteMsg::Deposit {});
        assert!(matches!(res, Err(ContractError::InvalidDepositAmount {})));
        assert_eq!(all_deposits(&deps.as_ref()).unwrap(), before);
    }
}

#[test]
fn entries_of_the_store_are_those_of_the_balances_map() {
    let mut storage = MockStorage::new();
    balances_map().save(&mut storage, Addr::unchecked(B), &Uint128::new(77)).unwrap();
    let mut deps = DepsMut { storage: &mut storage, api: &CosmosApi };
    setup(&mut deps);
    assert_eq!(balance(&deps, B), Some(77));
    withdraw_fund(&mut deps, from(B, vec![]), 7).unwrap();
    pay_in(&mut deps, A, u128::MAX);
    assert_eq!(balances_map().load(&storage, Addr::unchecked(B)).unwrap(), Uint128::new(70));
    assert_eq!(balances_map().load(&storage, Addr::unchecked(A)).unwrap(), Uint128::MAX);
}

#[test]
fn unreadable_entry_is_a_failure_of_the_store() {
    let mut storage = MockStorage::new();
    let key = balances_map().key(Addr::unchecked(B));
    storage.set(&key, b"no amount");
    let mut deps = DepsMut { storage: &mut storage, api: &CosmosApi };
    setup(&mut deps);
    pay_in(&mut deps, A, 10);
    assert!(matches!(deposit(&deps.as_ref(), B.to_string()), Err(ContractError::Std(_))));
    assert!(matches!(all_deposits(&deps.as_ref()), Err(ContractError::Std(_))));
    assert!(matches!(totaldeposit(&deps.as_ref()), Err(ContractError::Std(_))));
    assert!(matches!(checked_totaldeposit(&deps.as_ref()), Err(ContractError::Std(_))));
    // the sender is not debited where the receiver cannot be credited
    let res = transfer_fund(&mut deps, from(A, vec![]), 4, B.to_string());
    assert!(matches!(res, Err(ContractError::Std(_))));
    assert_eq!(balance(&deps, A), Some(10));
    let res = withdraw_fund(&mut deps, from(B, vec![]), 1);
    assert!(matches!(res, Err(ContractError::Std(_))));
    let res = deposit_fund(&mut deps, from(B, vec![coin(1, "tsy")]));
    assert!(matches!(res, Err(ContractError::Std(_))));
    assert_eq!(storage.get(&key), Some(b"no amount".to_vec()));
}

#[test]
fn store_error_repeats_and_changes_nothing() {
    let mut storage = MockStorage::new();
    let key = balances_map().key(Addr::unchecked(B));
    storage.set(&key, b"no amount");
    let mut deps = DepsMut { storage: &mut storage, api: &CosmosApi };
    setup(&mut deps);
    pay_in(&mut deps, A, 10);
    for _ in 0..2 {
        let res = checked_transfer_fund(&mut deps, from(A, vec![]), 4, B.to_string());
        assert!(matches!(res, Some(Err(ContractError::Std(_)))));
        let res = checked_execute(&mut deps, from(B, vec![]), ExecuteMsg::Withdraw { amount: 1 });
        assert!(matches!(res, Some(Err(ContractError::Std(_)))));
        let res = checked_deposit_fund(&mut deps, from(B, vec![coin(1, "tsy")]));
        assert!(matches!(res, Some(Err(ContractError::Std(_)))));
        // the rules of the request itself come before the store
        let res = transfer_fund(&mut deps, from(B, vec![]), 0, A.to_string());
        assert!(matches!(res, Err(ContractError::InvalidTransferAmount {})));
        let res = withdraw_fund(&mut deps, from(B, vec![coin(1, "tsy")]), 1);
        assert!(matches!(res, Err(ContractError::NoEmptyFunds {})));
        let res = deposit_fund(&mut deps, from(B, vec![coin(1, "thi")]));
        assert!(matches!(res, Err(ContractError::InvalidDepositAmount {})));
        assert_eq!(balance(&deps, A), Some(10));
    }
    // a transfer to oneself never reads a second entry
    transfer_fund(&mut deps, from(A, vec![]), 10, A.to_string()).unwrap();
    assert_eq!(balance(&deps, A), Some(10));
}

#[test]
fn key_that_is_no_address_stops_the_listings_only() {
    let mut storage = MockStorage::new();
    let mut key = balances_map().key(Addr::unchecked("")).to_vec();
    key.push(0xff);
    storage.set(&key, b"\"5\"");
    let mut deps = DepsMut { storage: &mut storage, api: &CosmosApi };
    setup(&mut deps);
    pay_in(&mut deps, A, 10);
    transfer_fund(&mut deps, from(A, vec![]), 4, B.to_string()).unwrap();
    withdraw_fund(&mut deps, from(B, vec![]), 1).unwrap();
    assert_eq!(balance(&deps, A), Some(6));
    assert_eq!(balance(&deps, B), Some(3));
    assert_eq!(balance(&deps, C), None);
    assert!(matches!(all_deposits(&deps.as_ref()), Err(ContractError::Std(_))));
    assert!(matches!(totaldeposit(&deps.as_ref()), Err(ContractError::Std(_))));
    assert!(matches!(checked_totaldeposit(&deps.as_ref()), Err(ContractError::Std(_))));
    let res = checked_query(&deps.as_ref(), QueryMsg::GetTotalDeposit {});
    assert!(matches!(res, Err(ContractError::Std(_))));
}

#[test]
fn entries_that_could_be_listed_can_be_listed_after_every_call() {
    let mut storage = MockStorage::new();
    let mut deps = DepsMut { storage: &mut storage, api: &CosmosApi };
    assert_eq!(all_deposits(&deps.as_ref()).unwrap(), vec![]);
    setup(&mut deps);
    assert_eq!(sum(&deps), 0);
    pay_in(&mut deps, "cosmos1\u{e9}t\u{e9}", 3);
    assert_eq!(sum(&deps), 3);
    transfer_fund(&mut deps, from("cosmos1\u{e9}t\u{e9}", vec![]), 2, "cosmos1\u{10348}".to_string())
        .unwrap();
    assert_eq!(sum(&deps), 3);
    withdraw_fund(&mut deps, from("cosmos1\u{10348}", vec![]), 2).unwrap();
    assert!(withdraw_fund(&mut deps, from("cosmos1\u{10348}", vec![]), 1).is_err());
    let listed: Vec<(String, u128)> = all_deposits(&deps.as_ref())
        .unwrap()
        .into_iter()
        .map(|entry| (entry.address, entry.totaldeposit))
        .collect();
    assert_eq!(
        listed,
        vec![("cosmos1\u{e9}t\u{e9}".to_string(), 1), ("cosmos1\u{10348}".to_string(), 0)]
    );
}

#[test]
fn checked_deposit_sees_what_does_not_fit() {
    let mut storage = MockStorage::new();
    let mut deps = DepsMut { storage: &mut storage, api: &CosmosApi };
    setup(&mut deps);
    let res = checked_deposit_fund(&mut deps, from(A, vec![coin(u128::MAX - 1, "tsy")]));
    assert!(matches!(res, Some(Ok(_))));
    assert!(checked_deposit_fund(&mut deps, from(A, vec![coin(2, "tsy")])).is_none());
    assert!(checked_execute(&mut deps, from(A, vec![coin(2, "tsy")]), ExecuteMsg::Deposit {}).is_none());
    assert_eq!(balance(&deps, A), Some(u128::MAX - 1));
    // other denominations do not count
    let res = checked_deposit_fund(&mut deps, from(A, vec![coin(u128::MAX, "thi")]));
    assert!(matches!(res, Some(Err(ContractError::InvalidDepositAmount {}))));
    let res = checked_deposit_fund(&mut deps, from(A, vec![coin(1, "tsy")]));
    assert!(matches!(res, Some(Ok(_))));
    assert_eq!(balance(&deps, A), Some(u128::MAX));
}

#[test]
fn checked_transfer_sees_what_does_not_fit() {
    let mut storage = MockStorage::new();
    let mut deps = DepsMut { storage: &mut storage, api: &CosmosApi };
    setup(&mut deps);
    pay_in(&mut deps, A, 10);
    pay_in(&mut deps, B, u128::MAX - 3);
    assert!(checked_transfer_fund(&mut deps, from(A, vec![]), 4, B.to_string()).is_none());
    let msg = ExecuteMsg::Transfer { amount: 4, receiver: B.to_string() };
    assert!(checked_execute(&mut deps, from(A, vec![]), msg).is_none());
    assert_eq!(balance(&deps, A), Some(10));
    assert_eq!(balance(&deps, B), Some(u128::MAX - 3));
    // a transfer that breaks a rule is turned down for that rule
    let res = checked_transfer_fund(&mut deps, from(A, vec![]), 11, B.to_string());
    assert!(matches!(res, Some(Err(ContractError::TransferFundsExceedsBalance {}))));
    let res = checked_transfer_fund(&mut deps, from(C, vec![]), 4, B.to_string());
    assert!(matches!(res, Some(Err(ContractError::AddressHasNotDeposit {}))));
    let res = checked_transfer_fund(&mut deps, from(A, vec![coin(1, "tsy")]), 4, B.to_string());
    assert!(matches!(res, Some(Err(ContractError::NoEmptyFunds {}))));
    let res = checked_transfer_fund(&mut deps, from(A, vec![]), 3, B.to_string());
    assert!(matches!(res, Some(Ok(_))));
    assert_eq!(balance(&deps, A), Some(7));
    assert_eq!(balance(&deps, B), Some(u128::MAX));
    let res = checked_transfer_fund(&mut deps, from(B, vec![]), u128::MAX, B.to_string());
    assert!(matches!(res, Some(Ok(_))));
    let res = checked_execute(&mut deps, from(A, vec![]), ExecuteMsg::Withdraw { amount: 7 });
    assert!(matches!(res, Some(Ok(_))));
    assert_eq!(balance(&deps, A), Some(0));
}

#[test]
fn checked_total_sees_what_does_not_fit() {
    let mut storage = MockStorage::new();
    let mut deps = DepsMut { storage: &mut storage, api: &CosmosApi };
    setup(&mut deps);
    pay_in(&mut deps, A, u128::MAX);
    assert_eq!(
        checked_totaldeposit(&deps.as_ref()).unwrap(),
        Some(GetTotalDepositResponse { totaldeposit: u128::MAX })
    );
    pay_in(&mut deps, B, 1);
    assert_eq!(checked_totaldeposit(&deps.as_ref()).unwrap(), None);
    assert_eq!(checked_query(&deps.as_ref(), QueryMsg::GetTotalDeposit {}).unwrap(), None);
    assert_eq!(
        checked_query(&deps.as_ref(), QueryMsg::GetState {}).unwrap(),
        Some(QueryResponse::State(GetStateResponse { allowed_denom: "tsy".to_string() }))
    );
    assert_eq!(
        checked_query(&deps.as_ref(), QueryMsg::GetDeposit { owner: B.to_string() }).unwrap(),
        Some(QueryResponse::Deposit(GetDepositResponse { address: B.to_string(), deposit: 1 }))
    );
}

#[test]
fn allowed_amount_is_that_of_the_first_match() {
    let funds = vec![coin(5, "thi"), coin(7, "tsy"), coin(9, "tsy")];
    assert_eq!(allowed_amount(&funds, &"tsy".to_string()), 7);
    assert_eq!(allowed_amount(&funds, &"thi".to_string()), 5);
    assert_eq!(allowed_amount(&funds, &"ts".to_string()), 0);
    assert_eq!(allowed_amount(&vec![], &"tsy".to_string()), 0);
}

#[test]
fn credit_and_debit_work_on_one_balance() {
    assert_eq!(credit(None, 5), 5);
    assert_eq!(credit(Some(7), 5), 12);
    assert_eq!(credit(Some(u128::MAX - 5), 5), u128::MAX);
    let short = || ContractError::WithdrawFundsExceedsBalance {};
    assert!(matches!(debit(Some(7), 5, short()), Ok(2)));
    assert!(matches!(debit(Some(7), 7, short()), Ok(0)));
    assert!(matches!(debit(Some(7), 8, short()), Err(ContractError::WithdrawFundsExceedsBalance {})));
    assert!(matches!(
        debit(Some(0), 1, ContractError::TransferFundsExceedsBalance {}),
        Err(ContractError::TransferFundsExceedsBalance {})
    ));
    assert!(matches!(debit(None, 0, short()), Err(ContractError::AddressHasNotDeposit {})));
}

#[test]
fn sum_entries_adds_within_128_bits() {
    let entries = vec![("a".to_string(), 1u128), ("b".to_string(), 2), ("c".to_string(), 39)];
    assert_eq!(sum_entries(&entries), Some(42));
    assert_eq!(sum_entries(&vec![]), Some(0));
    let entries = vec![("a".to_string(), u128::MAX), ("b".to_string(), 0)];
    assert_eq!(sum_entries(&entries), Some(u128::MAX));
    let entries = vec![("a".to_string(), u128::MAX), ("b".to_string(), 1)];
    assert_eq!(sum_entries(&entries), None);
}

#[test]
fn deposits_of_keeps_every_entry_in_its_place() {
    let entries = vec![("b".to_string(), 2u128), ("a".to_string(), 0), ("b".to_string(), 7)];
    assert_eq!(
        deposits_of(&entries),
        vec![
            GetAllDepositResponse { address: "b".to_string(), totaldeposit: 2 },
            GetAllDepositResponse { address: "a".to_string(), totaldeposit: 0 },
            GetAllDepositResponse { address: "b".to_string(), totaldeposit: 7 },
        ]
    );
    assert_eq!(deposits_of(&vec![]), vec![]);
}

#[test]
fn configuration_is_the_denomination() {
    let config = Config { allowed_denom: "tsy".to_string() };
    assert_eq!(config.clone(), config);
    assert_eq!(config.allowed_denom, "tsy");
}
