//! The store as the ledger sees it, and the calls into `cosmwasm_std`,
//! `cw_storage_plus` and `cw2` that read and write it.
//!
//! Verus takes the contract of every function marked `external_body` here
//! on trust: each one holds the call that its doc comment names, and the
//! comment says what is claimed of it. What the store holds is spoken of through the functions
//! without a body: `stored_balances` and `stored_denom`.

use vstd::prelude::*;
use cosmwasm_std::{Addr, Api, Order, StdError, Storage, Uint128};

verus! {

/// The ledger's configuration: the one denomination it accepts.
#[derive(Debug, Clone, PartialEq, Eq)]
pub struct Config {
    pub allowed_denom: String,
}

/// Read access to the contract's store and to the chain's address rules.
///
/// The store may be any implementation of `cosmwasm_std::Storage`; what this
/// module states of it holds of a store that hands back from `get` what was
/// last `set` under a key and walks its keys in `range`, as
/// `cosmwasm_std::MemoryStorage` does.
#[verifier::external_body]
pub struct Deps<'a> {
    pub storage: &'a dyn Storage,
    pub api: &'a dyn Api,
}

/// Write access to the contract's store, with the chain's address rules.
#[verifier::external_body]
pub struct DepsMut<'a> {
    pub storage: &'a mut dyn Storage,
    pub api: &'a dyn Api,
}

/// The read-only access that `DepsMut::as_ref` hands out.
pub uninterp spec fn shared(deps: DepsMut) -> Deps;

/// The balance entries of the store: for every address whose entry under the
/// `balances` map decodes as an amount, that amount.
pub uninterp spec fn stored_balances(deps: Deps) -> Map<Seq<char>, u128>;

/// The addresses that have an entry under the `balances` map which does not
/// decode as an amount. None of them is among `stored_balances`.
pub uninterp spec fn unreadable_balances(deps: Deps) -> Set<Seq<char>>;

/// Whether `Map::range` over the whole map `balances` succeeds: every key
/// under the map is an address in UTF-8 and every value decodes as an
/// amount.
pub uninterp spec fn balances_listable(deps: Deps) -> bool;

/// The allowed denomination, if the store holds a readable one.
pub uninterp spec fn stored_denom(deps: Deps) -> Option<Seq<char>>;

/// Whether `Api::addr_validate` accepts `input`.
pub uninterp spec fn address_valid(deps: Deps, input: Seq<char>) -> bool;

/// The amount that `cosmwasm_std::from_json` reads from `bytes`, if any.
pub uninterp spec fn decoded_amount(bytes: Seq<u8>) -> Option<u128>;

/// `a` comes before `b` when both are compared character by character,
/// which is the order of `String` and of the UTF-8 keys in the store.
pub open spec fn address_before(a: Seq<char>, b: Seq<char>) -> bool
    decreases a.len(),
{
    if b.len() == 0 {
        false
    } else if a.len() == 0 {
        true
    } else if a[0] != b[0] {
        (a[0] as u32) < (b[0] as u32)
    } else {
        address_before(a.drop_first(), b.drop_first())
    }
}

/// `entries` holds each balance of `balances` once, in ascending order of
/// the addresses.
pub open spec fn lists_balances(entries: Seq<(Seq<char>, u128)>, balances: Map<Seq<char>, u128>) -> bool {
    &&& forall|i: int| 0 <= i < entries.len() ==> #[trigger] balances.contains_pair(entries[i].0, entries[i].1)
    &&& forall|a: Seq<char>| #[trigger] balances.contains_key(a) ==> exists|i: int| 0 <= i < entries.len() && #[trigger] entries[i].0 == a
    &&& forall|i: int, j: int| 0 <= i < j < entries.len() ==> address_before(#[trigger] entries[i].0, #[trigger] entries[j].0)
}

/// The listing as pairs of address and amount.
pub open spec fn entry_pairs(entries: Seq<(String, u128)>) -> Seq<(Seq<char>, u128)> {
    entries.map_values(|e: (String, u128)| (e.0@, e.1))
}

impl<'a> DepsMut<'a> {
    /// The balance entries of the store.
    pub open spec fn balances(self) -> Map<Seq<char>, u128> {
        stored_balances(shared(self))
    }

    /// The addresses whose entry the store cannot read.
    pub open spec fn unreadable(self) -> Set<Seq<char>> {
        unreadable_balances(shared(self))
    }

    /// Whether the balance entries can be listed.
    pub open spec fn listable(self) -> bool {
        balances_listable(shared(self))
    }

    /// The allowed denomination, if the store holds one.
    pub open spec fn denom(self) -> Option<Seq<char>> {
        stored_denom(shared(self))
    }

    /// Read-only access to the same store and the same address rules.
    pub fn as_ref(&self) -> (r: Deps<'_>)
        ensures
            r == shared(*self),
    {
        share(self)
    }
}

impl<'a> Deps<'a> {
    /// The balance entries of the store.
    pub open spec fn balances(self) -> Map<Seq<char>, u128> {
        stored_balances(self)
    }

    /// The addresses whose entry the store cannot read.
    pub open spec fn unreadable(self) -> Set<Seq<char>> {
        unreadable_balances(self)
    }

    /// Whether the balance entries can be listed.
    pub open spec fn listable(self) -> bool {
        balances_listable(self)
    }

    /// The allowed denomination, if the store holds one.
    pub open spec fn denom(self) -> Option<Seq<char>> {
        stored_denom(self)
    }
}

/// Trusted: borrows the store and the address rules of `deps` as
/// `cosmwasm_std::DepsMut::as_ref` does; `shared` is the name of what comes
/// out.
#[verifier::external_body]
pub(crate) fn share<'b>(deps: &'b DepsMut) -> (r: Deps<'b>)
    ensures
        r == shared(*deps),
{
    Deps { storage: &*deps.storage, api: deps.api }
}

/// Trusted: `cw_storage_plus::Item::load` on the item `state`. It succeeds
/// exactly when the store holds a readable denomination, and returns it.
#[verifier::external_body]
pub(crate) fn load_config(deps: &Deps) -> (r: Result<Config, StdError>)
    ensures
        match r {
            Ok(config) => stored_denom(*deps) == Some(config.allowed_denom@),
            Err(_) => stored_denom(*deps) is None,
        },
{
    let item: cw_storage_plus::Item<String> = cw_storage_plus::Item::new("state");
    item.load(deps.storage).map(|allowed_denom| Config { allowed_denom })
}

/// Trusted: `cw_storage_plus::Item::save` on the item `state`. It cannot
/// fail: the denomination is written as a JSON string, which the encoder
/// builds without an error path, and `Storage::set` returns nothing.
/// Afterwards the store holds the denomination of `config`. The balance
/// entries live under other keys and stay as they are.
#[verifier::external_body]
pub(crate) fn save_config(deps: &mut DepsMut, config: &Config) -> (r: Result<(), StdError>)
    ensures
        r is Ok,
        stored_denom(shared(*final(deps))) == Some(config.allowed_denom@),
        stored_balances(shared(*final(deps))) == stored_balances(shared(*old(deps))),
        unreadable_balances(shared(*final(deps))) == unreadable_balances(shared(*old(deps))),
        balances_listable(shared(*final(deps))) == balances_listable(shared(*old(deps))),
{
    let item: cw_storage_plus::Item<String> = cw_storage_plus::Item::new("state");
    item.save(deps.storage, &config.allowed_denom)
}

/// Trusted: `cw2::set_contract_version`. It cannot fail: name and version
/// are written as a JSON object of two strings, which the encoder builds
/// without an error path. It writes the item `contract_info` and so leaves
/// denomination and balances as they are.
#[verifier::external_body]
pub(crate) fn record_version(deps: &mut DepsMut, name: &str, version: &str) -> (r: Result<(), StdError>)
    ensures
        r is Ok,
        stored_denom(shared(*final(deps))) == stored_denom(shared(*old(deps))),
        stored_balances(shared(*final(deps))) == stored_balances(shared(*old(deps))),
        unreadable_balances(shared(*final(deps))) == unreadable_balances(shared(*old(deps))),
        balances_listable(shared(*final(deps))) == balances_listable(shared(*old(deps))),
{
    cw2::set_contract_version(deps.storage, name, version)
}

/// Trusted: `cw_storage_plus::Map::may_load` on the map `balances`. A
/// readable entry is returned, `None` means that there is no entry, and an
/// error that there is one whose bytes do not decode.
#[verifier::external_body]
pub(crate) fn load_balance(deps: &Deps, owner: &str) -> (r: Result<Option<u128>, StdError>)
    ensures
        match r {
            Ok(Some(amount)) => stored_balances(*deps).contains_pair(owner@, amount),
            Ok(None) => !stored_balances(*deps).contains_key(owner@),
            Err(_) => !stored_balances(*deps).contains_key(owner@),
        },
        r is Err <==> unreadable_balances(*deps).contains(owner@),
{
    let map: cw_storage_plus::Map<Addr, Uint128> = cw_storage_plus::Map::new("balances");
    map.may_load(deps.storage, Addr::unchecked(owner)).map(|found| found.map(|amount| amount.u128()))
}

/// Trusted: `cosmwasm_std::to_json_vec` on an amount. It cannot fail: the
/// amount is written as a JSON string of its decimal digits, which the
/// encoder builds without an error path. The bytes are not empty and decode
/// to the same amount.
#[verifier::external_body]
pub(crate) fn encode_amount(amount: u128) -> (r: Result<Vec<u8>, StdError>)
    ensures
        r is Ok,
        r matches Ok(bytes) ==> bytes@.len() > 0 && decoded_amount(bytes@) == Some(amount),
{
    cosmwasm_std::to_json_vec(&Uint128::new(amount))
}

/// Trusted: `Storage::set` under the key that `cw_storage_plus::Map::key`
/// gives for `owner` in the map `balances`. Afterwards the entry of `owner`
/// holds the amount that `bytes` decode to, so it is readable; all other
/// entries and the denomination stay as they are, and entries that could
/// be listed before can be listed after.
#[verifier::external_body]
pub(crate) fn put_balance(deps: &mut DepsMut, owner: &str, bytes: &Vec<u8>)
    requires
        bytes@.len() > 0,
        decoded_amount(bytes@) is Some,
    ensures
        stored_balances(shared(*final(deps))) == stored_balances(shared(*old(deps))).insert(
            owner@,
            decoded_amount(bytes@).unwrap(),
        ),
        unreadable_balances(shared(*final(deps))) == unreadable_balances(shared(*old(deps))).remove(owner@),
        balances_listable(shared(*old(deps))) ==> balances_listable(shared(*final(deps))),
        stored_denom(shared(*final(deps))) == stored_denom(shared(*old(deps))),
{
    let map: cw_storage_plus::Map<Addr, Uint128> = cw_storage_plus::Map::new("balances");
    deps.storage.set(&map.key(Addr::unchecked(owner)), bytes);
}

/// Trusted: `cw_storage_plus::Map::range` over the whole map `balances`, in
/// ascending order. It succeeds exactly where the entries can be listed;
/// each is then handed out once, in the order of the addresses, and none is
/// unreadable.
#[verifier::external_body]
pub(crate) fn list_balances(deps: &Deps) -> (r: Result<Vec<(String, u128)>, StdError>)
    ensures
        r is Ok <==> balances_listable(*deps),
        r matches Ok(entries) ==> lists_balances(entry_pairs(entries@), stored_balances(*deps)),
        r is Ok ==> unreadable_balances(*deps) == Set::<Seq<char>>::empty(),
{
    let map: cw_storage_plus::Map<Addr, Uint128> = cw_storage_plus::Map::new("balances");
    map.range(deps.storage, None, None, Order::Ascending)
        .map(|item| item.map(|(address, amount)| (address.into_string(), amount.u128())))
        .collect()
}

/// Trusted: `Api::addr_validate`. An accepted address comes back unchanged.
#[verifier::external_body]
pub(crate) fn validate_address(deps: &Deps, input: &str) -> (r: Result<String, StdError>)
    ensures
        r is Ok <==> address_valid(*deps, input@),
        r matches Ok(address) ==> address@ == input@,
{
    deps.api.addr_validate(input).map(|address| address.into_string())
}

} // verus!
