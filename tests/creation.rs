use asset::address::{derive_address, proves_control, Address};
use asset::instructions::{commit_token, create_token, token_manager_seed, CreateToken};
use asset::nft::NftCollection;
use asset::staking::{StakingPool, UserStake};
use asset::store::RecordStore;
use asset::token::{TokenError, TokenInitParams, TokenManager};
use asset::vesting::VestingSchedule;

fn doge_params() -> TokenInitParams {
    TokenInitParams {
        name: "Doge".to_string(),
        symbol: "DOGE".to_string(),
        uri: "https://x/doge.json".to_string(),
        decimals: 6,
        max_supply: 1_000_000_000,
        is_mintable: true,
        is_freezable: false,
        is_burnable: true,
        transfer_fee_basis_points: 250,
        fee_recipient: None,
    }
}

fn ctx_for(mint: u8) -> CreateToken {
    CreateToken {
        authority: Address::new([1u8; 32]),
        token_mint: Address::new([mint; 32]),
        program_id: Address::new([9u8; 32]),
        unix_timestamp: 1_700_000_000,
    }
}

fn params_with(f: impl Fn(&mut TokenInitParams)) -> TokenInitParams {
    let mut p = doge_params();
    f(&mut p);
    p
}

#[test]
fn validate_accepts_doge() {
    assert_eq!(doge_params().validate(), Ok(()));
}

#[test]
fn validate_name_bounds() {
    assert_eq!(params_with(|p| p.name = "a".repeat(32)).validate(), Ok(()));
    assert_eq!(params_with(|p| p.name = "a".repeat(33)).validate(), Err(TokenError::NameTooLong));
    // 11 three-byte characters: 33 bytes.
    assert_eq!(params_with(|p| p.name = "€".repeat(11)).validate(), Err(TokenError::NameTooLong));
}

#[test]
fn validate_symbol_bounds() {
    assert_eq!(params_with(|p| p.symbol = "S".repeat(10)).validate(), Ok(()));
    assert_eq!(params_with(|p| p.symbol = "S".repeat(11)).validate(), Err(TokenError::SymbolTooLong));
}

#[test]
fn validate_uri_bounds() {
    assert_eq!(params_with(|p| p.uri = "u".repeat(200)).validate(), Ok(()));
    assert_eq!(params_with(|p| p.uri = "u".repeat(201)).validate(), Err(TokenError::UriTooLong));
}

#[test]
fn validate_decimals_bounds() {
    assert_eq!(params_with(|p| p.decimals = 9).validate(), Ok(()));
    assert_eq!(params_with(|p| p.decimals = 10).validate(), Err(TokenError::InvalidDecimals));
}

#[test]
fn validate_max_supply() {
    assert_eq!(params_with(|p| p.max_supply = 1).validate(), Ok(()));
    assert_eq!(params_with(|p| p.max_supply = 0).validate(), Err(TokenError::InvalidMaxSupply));
}

#[test]
fn validate_transfer_fee_bounds() {
    assert_eq!(params_with(|p| p.transfer_fee_basis_points = 10000).validate(), Ok(()));
    assert_eq!(
        params_with(|p| p.transfer_fee_basis_points = 10001).validate(),
        Err(TokenError::InvalidTransferFee)
    );
}

#[test]
fn validate_reports_first_violation() {
    let p = params_with(|p| {
        p.name = "n".repeat(40);
        p.max_supply = 0;
        p.transfer_fee_basis_points = 20000;
    });
    assert_eq!(p.validate(), Err(TokenError::NameTooLong));
    let p = params_with(|p| {
        p.decimals = 12;
        p.max_supply = 0;
    });
    assert_eq!(p.validate(), Err(TokenError::InvalidDecimals));
}

#[test]
fn seed_is_token_manager() {
    assert_eq!(token_manager_seed(), b"token_manager".to_vec());
}

#[test]
fn derivation_is_deterministic() {
    let seed = token_manager_seed();
    let key = Address::new([3u8; 32]);
    let program = Address::new([9u8; 32]);
    let first = derive_address(&seed, &key, &program).unwrap();
    let second = derive_address(&seed, &key, &program).unwrap();
    assert_eq!(first, second);
    assert_ne!(first.0, key);
    let other = derive_address(&seed, &Address::new([4u8; 32]), &program).unwrap();
    assert_ne!(first.0, other.0);
}

#[test]
fn derived_address_is_controlled() {
    let seed = token_manager_seed();
    let key = Address::new([3u8; 32]);
    let program = Address::new([9u8; 32]);
    let (address, bump) = derive_address(&seed, &key, &program).unwrap();
    assert!(proves_control(&seed, &key, bump, &program, &address));
    assert!(!proves_control(&seed, &key, bump, &program, &key));
    assert!(!proves_control(&seed, &Address::new([4u8; 32]), bump, &program, &address));
}

#[test]
fn doge_end_to_end() {
    let mut store = RecordStore::new();
    let ctx = ctx_for(5);
    let creation = create_token(&store, &ctx, doge_params()).unwrap();
    let (expected, bump) = derive_address(&token_manager_seed(), &ctx.token_mint, &ctx.program_id).unwrap();
    assert_eq!(creation.address, expected);
    assert_eq!(creation.manager.bump, bump);
    assert_eq!(creation.manager.current_supply, 0);
    assert_eq!(creation.freeze_authority, None);
    assert_eq!(creation.mint_authority, expected);
    let rv = creation.revocation.clone().unwrap();
    assert_eq!(rv.mint, ctx.token_mint);
    assert_eq!(rv.current_authority, expected);
    assert_eq!(rv.bump, bump);
    assert_eq!(rv.data, vec![6u8, 1, 0]);
    assert!(proves_control(&rv.seed, &rv.mint, rv.bump, &ctx.program_id, &rv.current_authority));

    assert_eq!(commit_token(&mut store, creation, true), Ok(expected));
    assert_eq!(store.len(), 1);

    let again = create_token(&store, &ctx, doge_params());
    assert_eq!(again.err(), Some(TokenError::AlreadyExists));
    let stored = store.get(&expected).unwrap();
    assert_eq!(stored.name, "Doge");
    assert_eq!(stored.current_supply, 0);
    assert_eq!(store.len(), 1);
}

#[test]
fn record_fields_equal_parameters() {
    let store = RecordStore::new();
    let ctx = ctx_for(6);
    let params = params_with(|p| {
        p.fee_recipient = Some(Address::new([8u8; 32]));
        p.is_mintable = false;
        p.is_burnable = false;
        p.transfer_fee_basis_points = 10000;
    });
    let c = create_token(&store, &ctx, params.clone()).unwrap();
    let m: &TokenManager = &c.manager;
    assert_eq!(m.authority, ctx.authority);
    assert_eq!(m.token_mint, ctx.token_mint);
    assert_eq!(m.name, params.name);
    assert_eq!(m.symbol, params.symbol);
    assert_eq!(m.uri, params.uri);
    assert_eq!(m.decimals, params.decimals);
    assert_eq!(m.max_supply, params.max_supply);
    assert_eq!(m.current_supply, 0);
    assert!(!m.is_mintable);
    assert!(!m.is_freezable);
    assert!(!m.is_burnable);
    assert_eq!(m.transfer_fee_basis_points, 10000);
    assert_eq!(m.fee_recipient, Some(Address::new([8u8; 32])));
    assert_eq!(m.created_at, 1_700_000_000);
}

#[test]
fn freezable_keeps_freeze_authority() {
    let mut store = RecordStore::new();
    let ctx = ctx_for(7);
    let c = create_token(&store, &ctx, params_with(|p| p.is_freezable = true)).unwrap();
    assert!(c.revocation.is_none());
    assert_eq!(c.freeze_authority, Some(c.address));
    assert_eq!(c.mint_authority, c.address);
    let address = c.address;
    // No revocation is due, so the report is not read.
    assert_eq!(commit_token(&mut store, c, false), Ok(address));
    assert!(store.contains(&address));
}

#[test]
fn failed_revocation_allocates_nothing() {
    let mut store = RecordStore::new();
    let ctx = ctx_for(10);
    let c = create_token(&store, &ctx, doge_params()).unwrap();
    let address = c.address;
    assert_eq!(commit_token(&mut store, c, false), Err(TokenError::LedgerDelegationFailed));
    assert_eq!(store.len(), 0);
    assert!(!store.contains(&address));
}

#[test]
fn invalid_parameters_allocate_nothing() {
    let store = RecordStore::new();
    let ctx = ctx_for(11);
    let r = create_token(&store, &ctx, params_with(|p| p.name = "x".repeat(33)));
    assert_eq!(r.err(), Some(TokenError::NameTooLong));
    let r = create_token(&store, &ctx, params_with(|p| p.max_supply = 0));
    assert_eq!(r.err(), Some(TokenError::InvalidMaxSupply));
    let r = create_token(&store, &ctx, params_with(|p| p.transfer_fee_basis_points = 10001));
    assert_eq!(r.err(), Some(TokenError::InvalidTransferFee));
    assert_eq!(store.len(), 0);
}

#[test]
fn second_commit_leaves_first_record() {
    let mut store = RecordStore::new();
    let ctx = ctx_for(12);
    let first = create_token(&store, &ctx, doge_params()).unwrap();
    let second = create_token(&store, &ctx, params_with(|p| p.name = "Other".to_string())).unwrap();
    let address = first.address;
    assert_eq!(commit_token(&mut store, first, true), Ok(address));
    assert_eq!(commit_token(&mut store, second, true), Err(TokenError::AlreadyExists));
    assert_eq!(store.get(&address).unwrap().name, "Doge");
    assert_eq!(store.len(), 1);
}

#[test]
fn distinct_assets_get_distinct_records() {
    let mut store = RecordStore::new();
    let a = create_token(&store, &ctx_for(20), doge_params()).unwrap();
    let b = create_token(&store, &ctx_for(21), doge_params()).unwrap();
    assert_ne!(a.address, b.address);
    let (aa, ba) = (a.address, b.address);
    assert_eq!(commit_token(&mut store, a, true), Ok(aa));
    assert_eq!(commit_token(&mut store, b, true), Ok(ba));
    assert_eq!(store.len(), 2);
    assert!(store.get(&Address::new([0u8; 32])).is_none());
}

#[test]
fn reserved_sizes() {
    assert_eq!(TokenManager::LEN, 390);
    assert_eq!(StakingPool::LEN, 121);
    assert_eq!(UserStake::LEN, 105);
    assert_eq!(VestingSchedule::LEN, 146);
    assert_eq!(NftCollection::LEN, 433);
}

#[test]
fn error_messages() {
    assert_eq!(TokenError::NameTooLong.message(), "Token name too long (max 32 characters)");
    assert_eq!(TokenError::InvalidTransferFee.message(), "Invalid transfer fee (max 100%)");
    assert_eq!(TokenError::Unauthorized.message(), "Unauthorized");
}
