use vstd::prelude::*;

verus! {

/// An amount of one denomination.
#[derive(Debug, Clone, PartialEq, Eq)]
pub struct Coin {
    pub denom: String,
    pub amount: u128,
}

/// Who sent a request, and the funds attached to it.
#[derive(Debug, Clone, PartialEq, Eq)]
pub struct MessageInfo {
    pub sender: String,
    pub funds: Vec<Coin>,
}

#[derive(Debug, Clone, PartialEq, Eq)]
pub struct InstantiateMsg {
    pub allowed_denom: String,
}

#[derive(Debug, Clone, PartialEq, Eq)]
pub enum ExecuteMsg {
    Deposit {},
    Transfer { amount: u128, receiver: String },
    Withdraw { amount: u128 },
}

#[derive(Debug, Clone, PartialEq, Eq)]
pub enum QueryMsg {
    GetState {},
    GetDeposit { owner: String },
    GetAllDeposit {},
    GetTotalDeposit {},
}

#[derive(Debug, Clone, PartialEq, Eq)]
pub struct GetStateResponse {
    pub allowed_denom: String,
}

#[derive(Debug, Clone, PartialEq, Eq)]
pub struct GetDepositResponse {
    pub address: String,
    pub deposit: u128,
}

#[derive(Debug, Clone, PartialEq, Eq)]
pub struct GetAllDepositResponse {
    pub address: String,
    pub totaldeposit: u128,
}

#[derive(Debug, Clone, PartialEq, Eq)]
pub struct GetTotalDepositResponse {
    pub totaldeposit: u128,
}

/// The answer to a query, one variant for each kind of question.
#[derive(Debug, Clone, PartialEq, Eq)]
pub enum QueryResponse {
    State(GetStateResponse),
    Deposit(GetDepositResponse),
    AllDeposit(Vec<GetAllDepositResponse>),
    TotalDeposit(GetTotalDepositResponse),
}

/// What a successful request did, for the caller to publish.
#[derive(Debug, Clone, PartialEq, Eq)]
pub enum Event {
    Instantiate { allowed_denom: String },
    Deposit { depositor: String, amount: u128 },
    Transfer { sender: String, receiver: String, amount: u128 },
    Withdraw { receiver: String, amount: u128 },
}

/// An instruction to the bank to release `amount` to `to_address`.
/// The ledger only writes it out; it moves no funds.
#[derive(Debug, Clone, PartialEq, Eq)]
pub struct BankSend {
    pub to_address: String,
    pub amount: Vec<Coin>,
}

/// The result of a successful request: what happened, and the
/// instructions to be carried out after it.
#[derive(Debug, Clone, PartialEq, Eq)]
pub struct Response {
    pub event: Event,
    pub messages: Vec<BankSend>,
}

impl Coin {
    /// The coin as a pair of denomination and amount.
    pub open spec fn pair(self) -> (Seq<char>, u128) {
        (self.denom@, self.amount)
    }
}

/// The attached funds as pairs of denomination and amount.
pub open spec fn fund_pairs(funds: Seq<Coin>) -> Seq<(Seq<char>, u128)> {
    funds.map_values(|c: Coin| c.pair())
}

} // verus!
