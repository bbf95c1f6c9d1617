//! Building the accounts of the order book with `miden-objects` and `miden-lib`: basic
//! wallets, basic fungible faucets, and the signature-check account whose storage map holds
//! the authorized public keys.
use vstd::prelude::*;
use miden_crypto::dsa::rpo_falcon512::PublicKey;
use miden_crypto::Felt;
use miden_lib::account::auth::RpoFalcon512;
use miden_lib::account::faucets::BasicFungibleFaucet;
use miden_lib::account::wallets::BasicWallet;
use miden_lib::transaction::TransactionKernel;
use miden_objects::account::{
    Account, AccountBuilder, AccountComponent, AccountIdAnchor, AccountStorageMode, AccountType,
    StorageMap, StorageSlot,
};
use miden_objects::asset::TokenSymbol;
use miden_objects::{AccountError, AssetError};
use miden_assembly::Library;
use crate::field::{all_felts, is_felt};
use crate::multisig::{authorized_entries, authorized_keys_storage_map, empty_word, storage_map_entries};

verus! {

#[verifier::external_type_specification]
#[verifier::external_body]
pub struct ExAccount(Account);

#[verifier::external_type_specification]
#[verifier::external_body]
pub struct ExAccountComponent(AccountComponent);

#[verifier::external_type_specification]
#[verifier::external_body]
pub struct ExAccountIdAnchor(AccountIdAnchor);

#[verifier::external_type_specification]
#[verifier::external_body]
pub struct ExAccountError(AccountError);

#[verifier::external_type_specification]
#[verifier::external_body]
pub struct ExStorageSlot(StorageSlot);

#[verifier::external_type_specification]
#[verifier::external_body]
pub struct ExTokenSymbol(TokenSymbol);

/// The type of an account (the variants of `AccountType` of `miden-objects`).
#[derive(Clone, Copy, Debug, PartialEq, Eq, Structural)]
pub enum AccountKind {
    FungibleFaucet,
    NonFungibleFaucet,
    RegularImmutableCode,
    RegularUpdatableCode,
}

/// Where an account's state is kept (the variants of `AccountStorageMode`).
#[derive(Clone, Copy, Debug, PartialEq, Eq, Structural)]
pub enum StorageKind {
    Public,
    Private,
}

/// Why a faucet could not be built.
pub enum FaucetBuildError {
    /// The token symbol was refused.
    Symbol(AssetError),
    /// The faucet component or the account was refused.
    Account(AccountError),
}

/// The decimals of the order book's faucets.
pub const FAUCET_DECIMALS: u8 = 8;

/// The maximum supply of the order book's faucets.
pub const FAUCET_MAX_SUPPLY: u64 = 1_000_000;

/// The most decimals a basic fungible faucet takes (`BasicFungibleFaucet::MAX_DECIMALS`).
pub const MAX_DECIMALS: u8 = 12;

/// The largest fungible amount (`FungibleAsset::MAX_AMOUNT`): 2^63 - 1.
pub const MAX_FUNGIBLE_AMOUNT: u64 = 0x7fff_ffff_ffff_ffff;

// NAMES
// ================================================================================================

/// Whether a storage slot holds a single word (`StorageSlot::Value`) rather than a map.
pub uninterp spec fn slot_is_value(slot: StorageSlot) -> bool;

/// The word a value slot holds, as canonical values.
pub uninterp spec fn slot_word(slot: StorageSlot) -> Seq<u64>;

/// The entries of the storage map a map slot holds (see `storage_map_entries`).
pub uninterp spec fn slot_entries(slot: StorageSlot) -> Map<Seq<u64>, Seq<u64>>;

/// The storage slots an account component holds, in order.
pub uninterp spec fn component_slots(component: AccountComponent) -> Seq<StorageSlot>;

/// The code library an account component holds.
pub uninterp spec fn component_code(component: AccountComponent) -> Library;

/// Whether an account component supports all four account types.
pub uninterp spec fn component_supports_all_types(component: AccountComponent) -> bool;

/// Whether the transaction kernel's assembler (debug mode) assembles this source as the code
/// library of an account component.
pub uninterp spec fn compiles_as_account_component(source: Seq<char>) -> bool;

/// The code library the transaction kernel's assembler (debug mode) makes of this source.
pub uninterp spec fn compiled_component_code(source: Seq<char>) -> Library;

/// Holds of the component that `BasicWallet` of `miden-lib` converts into.
pub uninterp spec fn is_basic_wallet(component: AccountComponent) -> bool;

/// The component that `RpoFalcon512` of `miden-lib` converts into for this public key.
pub uninterp spec fn falcon_auth_component(public_key: Seq<u64>) -> AccountComponent;

/// The token symbol that `TokenSymbol::new` makes of this text.
pub uninterp spec fn token_symbol_of(symbol: Seq<char>) -> TokenSymbol;

/// The component that `BasicFungibleFaucet` of `miden-lib` converts into for this symbol,
/// decimals and maximum supply.
pub uninterp spec fn fungible_faucet_component(symbol: TokenSymbol, decimals: u8, max_supply: u64) -> AccountComponent;

/// Whether `AccountBuilder::build` of `miden-objects` builds an account from this initial
/// seed, anchor, type, storage mode and components (added in this order).
pub uninterp spec fn account_builds(
    init_seed: Seq<u8>,
    anchor: AccountIdAnchor,
    kind: AccountKind,
    storage: StorageKind,
    components: Seq<AccountComponent>,
) -> bool;

/// The account and seed that `AccountBuilder::build` of `miden-objects` returns for this
/// initial seed, anchor, type, storage mode and components (added in this order).
pub uninterp spec fn built_account(
    init_seed: Seq<u8>,
    anchor: AccountIdAnchor,
    kind: AccountKind,
    storage: StorageKind,
    components: Seq<AccountComponent>,
) -> (Account, Seq<u64>);

/// The type of an account (of its id).
pub uninterp spec fn account_kind(account: Account) -> AccountKind;

/// The storage mode of an account (of its id).
pub uninterp spec fn account_storage_kind(account: Account) -> StorageKind;

/// The storage slots of an account, in order.
pub uninterp spec fn account_slots(account: Account) -> Seq<StorageSlot>;

/// The field element a token symbol is encoded as, as a canonical value.
pub uninterp spec fn token_symbol_value(symbol: TokenSymbol) -> u64;

/// How many storage slots an account of this type reserves before its components' slots:
/// one for a faucet, none otherwise.
pub open spec fn reserved_slots(kind: AccountKind) -> nat {
    match kind {
        AccountKind::FungibleFaucet | AccountKind::NonFungibleFaucet => 1,
        _ => 0,
    }
}

/// The storage slots of these components, one component after the other.
pub open spec fn components_slots(components: Seq<AccountComponent>) -> Seq<StorageSlot>
    decreases components.len(),
{
    if components.len() == 0 {
        Seq::empty()
    } else {
        components_slots(components.drop_last()) + component_slots(components.last())
    }
}

/// The number a token symbol of uppercase ASCII letters is encoded as: its letters read as
/// the digits of a base-26 number, 'A' being 0.
pub open spec fn symbol_code(symbol: Seq<char>) -> int
    decreases symbol.len(),
{
    if symbol.len() == 0 {
        0
    } else {
        symbol_code(symbol.drop_last()) * 26 + (symbol.last() as int - 'A' as int)
    }
}

/// Whether `TokenSymbol::new` accepts this text: one to six characters, each an uppercase
/// ASCII letter.
pub open spec fn is_token_symbol(symbol: Seq<char>) -> bool {
    1 <= symbol.len() <= 6 && forall|i: int| 0 <= i < symbol.len() ==> 'A' <= #[trigger] symbol[i] <= 'Z'
}

// TRUSTED CALLS
// ================================================================================================

/// Calls `StorageSlot::Value` of `miden-objects`. Trusted: the slot holds the word.
#[verifier::external_body]
fn storage_value_slot(word: [u64; 4]) -> (slot: StorageSlot)
    requires
        all_felts(word@),
    ensures
        slot_is_value(slot),
        slot_word(slot) == word@,
{
    StorageSlot::Value([Felt::new(word[0]), Felt::new(word[1]), Felt::new(word[2]), Felt::new(word[3])])
}

/// Calls `StorageSlot::Map` of `miden-objects`. Trusted: the slot holds the map.
#[verifier::external_body]
fn storage_map_slot(map: StorageMap) -> (slot: StorageSlot)
    ensures
        !slot_is_value(slot),
        slot_entries(slot) == storage_map_entries(map),
{
    StorageSlot::Map(map)
}

/// Calls `AccountComponent::compile` of `miden-objects` with the transaction kernel's
/// assembler of `miden-lib` in debug mode. Trusted: it succeeds exactly when the source
/// assembles and there are fewer than 256 slots (its source checks nothing else), and the
/// component holds the slots and the assembled code.
#[verifier::external_body]
fn compile_account_component(source: &str, slots: Vec<StorageSlot>) -> (result: Result<AccountComponent, AccountError>)
    ensures
        (result is Ok) == (compiles_as_account_component(source@) && slots.len() < 256),
        result matches Ok(c) ==> component_slots(c) == slots@,
        result matches Ok(c) ==> component_code(c) == compiled_component_code(source@),
{
    AccountComponent::compile(source, TransactionKernel::assembler().with_debug_mode(true), slots)
}

/// Calls `AccountComponent::with_supports_all_types`. Trusted: the component keeps its
/// slots and code and supports all account types.
#[verifier::external_body]
fn supporting_all_types(component: AccountComponent) -> (result: AccountComponent)
    ensures
        component_slots(result) == component_slots(component),
        component_code(result) == component_code(component),
        component_supports_all_types(result),
{
    component.with_supports_all_types()
}

/// Converts `BasicWallet` of `miden-lib` into its component. Trusted: it is that component,
/// and it has no storage slots.
#[verifier::external_body]
fn basic_wallet() -> (component: AccountComponent)
    ensures
        is_basic_wallet(component),
        component_slots(component).len() == 0,
{
    BasicWallet.into()
}

/// Converts `RpoFalcon512::new(PublicKey::new(key))` of `miden-lib` into its component.
/// Trusted: it is the named component of the key, and its one storage slot holds the key.
#[verifier::external_body]
fn falcon_auth(public_key: [u64; 4]) -> (component: AccountComponent)
    requires
        all_felts(public_key@),
    ensures
        component == falcon_auth_component(public_key@),
        component_slots(component).len() == 1,
        slot_is_value(component_slots(component)[0]),
        slot_word(component_slots(component)[0]) == public_key@,
{
    let key = [Felt::new(public_key[0]), Felt::new(public_key[1]), Felt::new(public_key[2]), Felt::new(public_key[3])];
    RpoFalcon512::new(PublicKey::new(key)).into()
}

/// Calls `TokenSymbol::new` of `miden-objects`. Trusted: it succeeds exactly on one to six
/// uppercase ASCII letters (see `is_token_symbol`), with the named symbol of the text,
/// encoded as `symbol_code` says.
#[verifier::external_body]
fn token_symbol_new(symbol: &str) -> (result: Result<TokenSymbol, AssetError>)
    ensures
        (result is Ok) == is_token_symbol(symbol@),
        result matches Ok(s) ==> s == token_symbol_of(symbol@),
        result matches Ok(s) ==> token_symbol_value(s) == symbol_code(symbol@),
{
    TokenSymbol::new(symbol)
}

/// Calls `BasicFungibleFaucet::new` of `miden-lib` and converts the faucet into its
/// component. Trusted: it succeeds exactly when the decimals are at most `MAX_DECIMALS` and
/// the maximum supply at most `MAX_FUNGIBLE_AMOUNT`, with the named component, whose one
/// storage slot holds `[max_supply, decimals, symbol, 0]`.
#[verifier::external_body]
fn basic_fungible_faucet(symbol: TokenSymbol, decimals: u8, max_supply: u64) -> (result: Result<AccountComponent, AccountError>)
    requires
        is_felt(max_supply),
    ensures
        (result is Ok) == (decimals <= MAX_DECIMALS && max_supply <= MAX_FUNGIBLE_AMOUNT),
        result matches Ok(c) ==> c == fungible_faucet_component(symbol, decimals, max_supply),
        result matches Ok(c) ==> component_slots(c).len() == 1 && slot_is_value(component_slots(c)[0]),
        result matches Ok(c) ==> slot_word(component_slots(c)[0]) == seq![max_supply, decimals as u64, token_symbol_value(symbol), 0u64],
{
    BasicFungibleFaucet::new(symbol, decimals, Felt::new(max_supply)).map(|faucet| faucet.into())
}

/// Calls `AccountBuilder` of `miden-objects`: sets the anchor, type and storage mode, adds
/// the components in order and builds. Trusted: it succeeds exactly when the named predicate
/// holds, with the named account and seed (a function of these arguments alone: the seed
/// is ground deterministically from the initial seed). The account has the given type and
/// storage mode, and its storage is the reserved slot of a faucet (an empty word for a
/// fungible faucet, an empty map for a non-fungible one) followed by the components' slots.
#[verifier::external_body]
fn build_account(
    init_seed: [u8; 32],
    anchor: AccountIdAnchor,
    kind: AccountKind,
    storage: StorageKind,
    components: Vec<AccountComponent>,
) -> (result: Result<(Account, [u64; 4]), AccountError>)
    ensures
        (result is Ok) == account_builds(init_seed@, anchor, kind, storage, components@),
        result matches Ok(r) ==> (r.0, r.1@) == built_account(init_seed@, anchor, kind, storage, components@),
        result matches Ok(r) ==> account_kind(r.0) == kind && account_storage_kind(r.0) == storage,
        result matches Ok(r) ==> account_slots(r.0).len() == reserved_slots(kind) + components_slots(components@).len(),
        result matches Ok(r) ==> account_slots(r.0).skip(reserved_slots(kind) as int) == components_slots(components@),
        result matches Ok(r) ==> (kind == AccountKind::FungibleFaucet ==> slot_is_value(account_slots(r.0)[0]) && slot_word(account_slots(r.0)[0]) == empty_word()),
        result matches Ok(r) ==> (kind == AccountKind::NonFungibleFaucet ==> !slot_is_value(account_slots(r.0)[0]) && slot_entries(account_slots(r.0)[0]) == Map::<Seq<u64>, Seq<u64>>::empty()),
{
    let account_type = match kind {
        AccountKind::FungibleFaucet => AccountType::FungibleFaucet,
        AccountKind::NonFungibleFaucet => AccountType::NonFungibleFaucet,
        AccountKind::RegularImmutableCode => AccountType::RegularAccountImmutableCode,
        AccountKind::RegularUpdatableCode => AccountType::RegularAccountUpdatableCode,
    };
    let storage_mode = match storage {
        StorageKind::Public => AccountStorageMode::Public,
        StorageKind::Private => AccountStorageMode::Private,
    };
    let mut builder = AccountBuilder::new(init_seed).anchor(anchor).account_type(account_type).storage_mode(storage_mode);
    for component in components {
        builder = builder.with_component(component);
    }
    builder.build().map(|(account, seed)| (account, seed.map(|e| e.as_int())))
}

// VERIFIED BUILDING
// ================================================================================================

/// The storage of the signature-check component: a value slot holding the empty word, then
/// a map slot holding the authorized keys (each mapped to `[1, 1, 1, 1]`).
pub open spec fn is_signature_check_storage(slots: Seq<StorageSlot>, keys: Seq<[u64; 4]>) -> bool {
    &&& slots.len() == 2
    &&& slot_is_value(slots[0])
    &&& slot_word(slots[0]) == empty_word()
    &&& !slot_is_value(slots[1])
    &&& slot_entries(slots[1]) == authorized_entries(keys)
}

/// The signature-check component of `source` for `keys`: that storage, the code assembled
/// from the source, and support for all account types.
pub open spec fn is_signature_check_component(component: AccountComponent, source: Seq<char>, keys: Seq<[u64; 4]>) -> bool {
    &&& is_signature_check_storage(component_slots(component), keys)
    &&& component_code(component) == compiled_component_code(source)
    &&& component_supports_all_types(component)
}

/// The slots of two components are those of the first, then those of the second.
proof fn lemma_two_components_slots(first: AccountComponent, second: AccountComponent)
    ensures
        components_slots(seq![first, second]) == component_slots(first) + component_slots(second),
{
    assert(seq![first, second].drop_last() =~= seq![first]);
    assert(seq![first].drop_last() =~= Seq::<AccountComponent>::empty());
    assert(components_slots(Seq::<AccountComponent>::empty()) =~= Seq::<StorageSlot>::empty());
    assert(components_slots(seq![first]) =~= component_slots(first));
    assert(components_slots(seq![first, second]) =~= component_slots(first) + component_slots(second));
}

/// Compiles the signature-check account component from its source, with storage slot 0
/// holding the empty word and slot 1 the map of the authorized `keys`; the component
/// supports all account types. Fails exactly when the source does not assemble.
pub fn signature_check_component(account_code: &str, keys: &Vec<[u64; 4]>) -> (result: Result<AccountComponent, AccountError>)
    requires
        forall|i: int| 0 <= i < keys.len() ==> all_felts((#[trigger] keys[i])@),
    ensures
        (result is Ok) == compiles_as_account_component(account_code@),
        result matches Ok(c) ==> is_signature_check_component(c, account_code@, keys@),
{
    let empty: [u64; 4] = [0, 0, 0, 0];
    assert(all_felts(empty@)) by {
        assert forall|m: int| 0 <= m < 4 implies is_felt(#[trigger] empty@[m]) by {}
    }
    assert(empty@ =~= empty_word());
    let value_slot = storage_value_slot(empty);
    let map_slot = storage_map_slot(authorized_keys_storage_map(keys));
    let mut slots: Vec<StorageSlot> = Vec::new();
    slots.push(value_slot);
    slots.push(map_slot);
    match compile_account_component(account_code, slots) {
        Ok(component) => Ok(supporting_all_types(component)),
        Err(e) => Err(e),
    }
}

/// Builds the signature-check account: a public account with updatable code whose
/// components are the basic wallet, then the signature-check component of `account_code`
/// for `keys`. Fails when the code does not assemble, or when the builder refuses.
pub fn build_signature_check_account(
    init_seed: [u8; 32],
    anchor: AccountIdAnchor,
    account_code: &str,
    keys: &Vec<[u64; 4]>,
) -> (result: Result<(Account, [u64; 4]), AccountError>)
    requires
        forall|i: int| 0 <= i < keys.len() ==> all_felts((#[trigger] keys[i])@),
    ensures
        !compiles_as_account_component(account_code@) ==> result is Err,
        compiles_as_account_component(account_code@) ==> exists|wallet: AccountComponent, component: AccountComponent|
            #![trigger is_basic_wallet(wallet), is_signature_check_component(component, account_code@, keys@)]
            {
                &&& is_basic_wallet(wallet)
                &&& is_signature_check_component(component, account_code@, keys@)
                &&& (result is Ok) == account_builds(init_seed@, anchor, AccountKind::RegularUpdatableCode, StorageKind::Public, seq![wallet, component])
                &&& result matches Ok(r) ==> (r.0, r.1@) == built_account(init_seed@, anchor, AccountKind::RegularUpdatableCode, StorageKind::Public, seq![wallet, component])
            },
        result matches Ok(r) ==> account_kind(r.0) == AccountKind::RegularUpdatableCode && account_storage_kind(r.0) == StorageKind::Public,
        result matches Ok(r) ==> is_signature_check_storage(account_slots(r.0), keys@),
{
    let component = match signature_check_component(account_code, keys) {
        Ok(component) => component,
        Err(e) => return Err(e),
    };
    let wallet = basic_wallet();
    let ghost w = wallet;
    let ghost c = component;
    let mut components: Vec<AccountComponent> = Vec::new();
    components.push(wallet);
    components.push(component);
    assert(components@ =~= seq![w, c]);
    let result = build_account(init_seed, anchor, AccountKind::RegularUpdatableCode, StorageKind::Public, components);
    proof {
        lemma_two_components_slots(w, c);
    }
    assert(is_basic_wallet(w) && is_signature_check_component(c, account_code@, keys@));
    result
}

/// Builds a basic account: a public account with updatable code whose components are the
/// Falcon authentication component for `public_key`, then the basic wallet.
pub fn build_basic_account(init_seed: [u8; 32], anchor: AccountIdAnchor, public_key: [u64; 4]) -> (result: Result<(Account, [u64; 4]), AccountError>)
    requires
        all_felts(public_key@),
    ensures
        exists|wallet: AccountComponent|
            #![trigger is_basic_wallet(wallet)]
            {
                &&& is_basic_wallet(wallet)
                &&& (result is Ok) == account_builds(init_seed@, anchor, AccountKind::RegularUpdatableCode, StorageKind::Public, seq![falcon_auth_component(public_key@), wallet])
                &&& result matches Ok(r) ==> (r.0, r.1@) == built_account(init_seed@, anchor, AccountKind::RegularUpdatableCode, StorageKind::Public, seq![falcon_auth_component(public_key@), wallet])
            },
        result matches Ok(r) ==> account_kind(r.0) == AccountKind::RegularUpdatableCode && account_storage_kind(r.0) == StorageKind::Public,
        result matches Ok(r) ==> account_slots(r.0).len() == 1 && slot_is_value(account_slots(r.0)[0]) && slot_word(account_slots(r.0)[0]) == public_key@,
{
    let auth = falcon_auth(public_key);
    let wallet = basic_wallet();
    let ghost w = wallet;
    let ghost a = auth;
    let mut components: Vec<AccountComponent> = Vec::new();
    components.push(auth);
    components.push(wallet);
    assert(components@ =~= seq![a, w]);
    let result = build_account(init_seed, anchor, AccountKind::RegularUpdatableCode, StorageKind::Public, components);
    proof {
        lemma_two_components_slots(a, w);
    }
    assert(is_basic_wallet(w));
    result
}

/// The component of the order book's faucets: token symbol "MID", `FAUCET_DECIMALS`
/// decimals and a maximum supply of `FAUCET_MAX_SUPPLY`.
pub open spec fn order_book_faucet_component() -> AccountComponent {
    fungible_faucet_component(token_symbol_of("MID"@), FAUCET_DECIMALS, FAUCET_MAX_SUPPLY)
}

/// The storage of the order book's faucet: the faucet's reserved slot (the empty word), the
/// public key, then the token's metadata `[FAUCET_MAX_SUPPLY, FAUCET_DECIMALS, code of "MID",
/// 0]`, where "MID" is coded as 12 * 26^2 + 8 * 26 + 3 = 8323.
pub open spec fn is_order_book_faucet_storage(slots: Seq<StorageSlot>, public_key: Seq<u64>) -> bool {
    &&& slots.len() == 3
    &&& slot_is_value(slots[0])
    &&& slot_word(slots[0]) == empty_word()
    &&& slot_is_value(slots[1])
    &&& slot_word(slots[1]) == public_key
    &&& slot_is_value(slots[2])
    &&& slot_word(slots[2]) == seq![FAUCET_MAX_SUPPLY, FAUCET_DECIMALS as u64, 8323u64, 0u64]
}

/// Builds a basic fungible faucet: a public fungible-faucet account whose components are the
/// Falcon authentication component for `public_key`, then the faucet component with token
/// symbol "MID", 8 decimals and a maximum supply of 1,000,000. The symbol is always
/// accepted.
pub fn build_basic_faucet(init_seed: [u8; 32], anchor: AccountIdAnchor, public_key: [u64; 4]) -> (result: Result<(Account, [u64; 4]), FaucetBuildError>)
    requires
        all_felts(public_key@),
    ensures
        !(result matches Err(FaucetBuildError::Symbol(_))),
        (result is Ok) == account_builds(init_seed@, anchor, AccountKind::FungibleFaucet, StorageKind::Public, seq![falcon_auth_component(public_key@), order_book_faucet_component()]),
        result matches Ok(r) ==> (r.0, r.1@) == built_account(init_seed@, anchor, AccountKind::FungibleFaucet, StorageKind::Public, seq![falcon_auth_component(public_key@), order_book_faucet_component()]),
        result matches Ok(r) ==> account_kind(r.0) == AccountKind::FungibleFaucet && account_storage_kind(r.0) == StorageKind::Public,
        result matches Ok(r) ==> is_order_book_faucet_storage(account_slots(r.0), public_key@),
{
    let symbol_text = "MID";
    proof {
        reveal_strlit("MID");
    }
    let symbol = match token_symbol_new(symbol_text) {
        Ok(symbol) => symbol,
        Err(e) => return Err(FaucetBuildError::Symbol(e)),
    };
    let faucet = match basic_fungible_faucet(symbol, FAUCET_DECIMALS, FAUCET_MAX_SUPPLY) {
        Ok(faucet) => faucet,
        Err(e) => return Err(FaucetBuildError::Account(e)),
    };
    let auth = falcon_auth(public_key);
    let ghost a = auth;
    let ghost f = faucet;
    let mut components: Vec<AccountComponent> = Vec::new();
    components.push(auth);
    components.push(faucet);
    assert(components@ =~= seq![a, f]);
    let built = build_account(init_seed, anchor, AccountKind::FungibleFaucet, StorageKind::Public, components);
    proof {
        lemma_two_components_slots(a, f);
        assert("MID"@ =~= seq!['M', 'I', 'D']);
        assert(seq!['M', 'I', 'D'].drop_last() =~= seq!['M', 'I']);
        assert(seq!['M', 'I'].drop_last() =~= seq!['M']);
        assert(seq!['M'].drop_last() =~= Seq::<char>::empty());
        assert(symbol_code(Seq::<char>::empty()) == 0);
        assert(symbol_code(seq!['M']) == 12);
        assert(symbol_code(seq!['M', 'I']) == 320);
        assert(symbol_code(seq!['M', 'I', 'D']) == 8323);
        if built is Ok {
            let slots = account_slots(built->Ok_0.0);
            assert(slots.skip(1)[0] == slots[1]);
            assert(slots.skip(1)[1] == slots[2]);
        }
    }
    match built {
        Ok(r) => Ok(r),
        Err(e) => Err(FaucetBuildError::Account(e)),
    }
}

} // verus!
