//! Creation of an asset control record.
//!
//! Creation runs in two steps around the one delegated call into the asset
//! ledger. `create_token` validates the parameters, derives the record's
//! address and builds the record, together with the freeze revocation that
//! must be signed as that address when the asset is not freezable. The
//! surrounding runtime performs that call, and `commit_token` allocates the
//! record only where the call went through, so no record ever claims a
//! revocation that did not happen.

use vstd::prelude::*;

use anchor_spl::token::spl_token::instruction::{AuthorityType, TokenInstruction};
use anchor_lang::solana_program::program_option::COption;

use crate::address::{derive_address, derived_address, created_program_address, signer_seeds, Address};
use crate::store::RecordStore;
use crate::token::{TokenError, TokenInitParams, TokenManager};

verus! {

/// The tag of asset control record addresses: the bytes of "token_manager".
pub open spec fn token_manager_seed_spec() -> Seq<u8> {
    seq![116u8, 111u8, 107u8, 101u8, 110u8, 95u8, 109u8, 97u8, 110u8, 97u8, 103u8, 101u8, 114u8]
}

/// The tag of asset control record addresses.
pub fn token_manager_seed() -> (r: Vec<u8>)
    ensures
        r@ == token_manager_seed_spec(),
{
    let r: Vec<u8> = vec![116u8, 111u8, 107u8, 101u8, 110u8, 95u8, 109u8, 97u8, 110u8, 97u8, 103u8, 101u8, 114u8];
    assert(r@ =~= token_manager_seed_spec());
    r
}

/// The payload of the asset ledger's set-authority request that removes the
/// freeze authority: request 6, authority type 1 (freeze), no successor.
pub open spec fn revoke_freeze_data_spec() -> Seq<u8> {
    seq![6u8, 1u8, 0u8]
}

/// Relies on spl_token's `TokenInstruction::pack`: `SetAuthority` packs as the
/// byte 6, then the authority type (`FreezeAccount` is 1), then 0 for
/// `COption::None`.
#[verifier::external_body]
fn revoke_freeze_data() -> (r: Vec<u8>)
    ensures
        r@ == revoke_freeze_data_spec(),
{
    TokenInstruction::SetAuthority {
        authority_type: AuthorityType::FreezeAccount,
        new_authority: COption::None,
    }.pack()
}

/// What a creation reads from its surroundings.
#[derive(Clone, Copy, Debug)]
pub struct CreateToken {
    /// The caller, who funds the record and becomes its authority.
    pub authority: Address,
    /// The asset the record will govern.
    pub token_mint: Address,
    /// The program that owns the record's derived address.
    pub program_id: Address,
    /// Ledger time of the creation, in seconds.
    pub unix_timestamp: i64,
}

/// The delegated call that strips the asset's freeze authority, signed as the
/// record's derived address.
#[derive(Clone, Debug)]
pub struct FreezeRevocation {
    /// The asset whose freeze authority goes.
    pub mint: Address,
    /// The current freeze authority: the record's address.
    pub current_authority: Address,
    /// The seeds to sign with: this tag, the asset identity, then `bump`.
    pub seed: Vec<u8>,
    pub bump: u8,
    /// The request's payload for the asset ledger.
    pub data: Vec<u8>,
}

/// A validated creation, waiting for its delegated call.
#[derive(Clone, Debug)]
pub struct Creation {
    /// The record's derived address.
    pub address: Address,
    pub manager: TokenManager,
    /// The asset's mint authority once the creation commits.
    pub mint_authority: Address,
    /// The asset's freeze authority once the creation commits; `None` is
    /// revoked for good.
    pub freeze_authority: Option<Address>,
    /// The delegated call to make before committing, if any.
    pub revocation: Option<FreezeRevocation>,
}

/// The record that a creation with these inputs writes.
pub open spec fn initial_record(ctx: CreateToken, params: TokenInitParams, bump: u8) -> TokenManager {
    TokenManager {
        authority: ctx.authority,
        token_mint: ctx.token_mint,
        name: params.name,
        symbol: params.symbol,
        uri: params.uri,
        decimals: params.decimals,
        max_supply: params.max_supply,
        current_supply: 0,
        is_mintable: params.is_mintable,
        is_freezable: params.is_freezable,
        is_burnable: params.is_burnable,
        transfer_fee_basis_points: params.transfer_fee_basis_points,
        fee_recipient: params.fee_recipient,
        created_at: ctx.unix_timestamp,
        bump,
    }
}

/// The outcome of a creation over a store holding `records`: the first
/// parameter violation; else `AddressUnavailable` where no address derives;
/// else `AlreadyExists` where a record lives there; else the address and
/// bump.
pub open spec fn creation_outcome(
    records: Map<Seq<u8>, TokenManager>,
    ctx: CreateToken,
    params: TokenInitParams,
) -> Result<(Seq<u8>, u8), TokenError> {
    match params.violation() {
        Some(e) => Err(e),
        None => match derived_address(token_manager_seed_spec(), ctx.token_mint@, ctx.program_id@) {
            None => Err(TokenError::AddressUnavailable),
            Some((a, b)) => if records.contains_key(a) {
                Err(TokenError::AlreadyExists)
            } else {
                Ok((a, b))
            },
        },
    }
}

/// What a creation built from `ctx`, `params` and the derived `(a, b)` holds.
pub open spec fn creation_matches(c: Creation, ctx: CreateToken, params: TokenInitParams, a: Seq<u8>, b: u8) -> bool {
    &&& c.address@ == a
    &&& c.manager == initial_record(ctx, params, b)
    &&& c.mint_authority@ == a
    &&& params.is_freezable ==> c.freeze_authority == Some(c.address) && c.revocation is None
    &&& !params.is_freezable ==> {
        &&& c.freeze_authority is None
        &&& c.revocation matches Some(rv) && {
            &&& rv.mint == ctx.token_mint
            &&& rv.current_authority == c.address
            &&& rv.seed@ == token_manager_seed_spec()
            &&& rv.bump == b
            &&& rv.data@ == revoke_freeze_data_spec()
            &&& created_program_address(signer_seeds(rv.seed@, rv.mint@, rv.bump), ctx.program_id@)
                == Some(a)
        }
    }
}

/// Prepares the creation of the asset control record for `ctx.token_mint`.
///
/// Validates `params`, derives the record's address, refuses an address that
/// already holds a record, and builds the record with a zero supply, the
/// caller as authority and the derivation's bump. The asset's mint authority
/// and, while it stays freezable, its freeze authority are the record's own
/// address; where it is not freezable, the returned creation carries the
/// revocation to perform, and its freeze authority is none.
pub fn create_token(store: &RecordStore, ctx: &CreateToken, params: TokenInitParams) -> (r: Result<Creation, TokenError>)
    requires
        store.wf(),
    ensures
        r is Ok <==> creation_outcome(store@, *ctx, params) is Ok,
        r matches Err(e) ==> creation_outcome(store@, *ctx, params) == Err::<(Seq<u8>, u8), _>(e),
        r matches Ok(c) ==> creation_outcome(store@, *ctx, params) matches Ok((a, b))
            && creation_matches(c, *ctx, params, a, b),
        r matches Ok(c) ==> c.manager.wf(),
{
    params.validate()?;
    let seed = token_manager_seed();
    let (address, bump) = match derive_address(seed.as_slice(), &ctx.token_mint, &ctx.program_id) {
        Some(found) => found,
        None => {
            return Err(TokenError::AddressUnavailable);
        },
    };
    if store.contains(&address) {
        return Err(TokenError::AlreadyExists);
    }
    let is_freezable = params.is_freezable;
    let manager = TokenManager {
        authority: ctx.authority,
        token_mint: ctx.token_mint,
        name: params.name,
        symbol: params.symbol,
        uri: params.uri,
        decimals: params.decimals,
        max_supply: params.max_supply,
        current_supply: 0,
        is_mintable: params.is_mintable,
        is_freezable: params.is_freezable,
        is_burnable: params.is_burnable,
        transfer_fee_basis_points: params.transfer_fee_basis_points,
        fee_recipient: params.fee_recipient,
        created_at: ctx.unix_timestamp,
        bump,
    };
    let (freeze_authority, revocation) = if is_freezable {
        (Some(address), None)
    } else {
        let rv = FreezeRevocation {
            mint: ctx.token_mint,
            current_authority: address,
            seed,
            bump,
            data: revoke_freeze_data(),
        };
        (None, Some(rv))
    };
    Ok(Creation { address, manager, mint_authority: address, freeze_authority, revocation })
}

/// Commits a prepared creation. `revoked` reports whether the creation's
/// revocation call went through; it is not read where there is none.
///
/// Fails with `LedgerDelegationFailed` where a revocation was due and did not
/// go through, with `AlreadyExists` where a record already lives at the
/// address; either way the store is left as it was. Otherwise the record is
/// allocated at its address.
pub fn commit_token(store: &mut RecordStore, creation: Creation, revoked: bool) -> (r: Result<Address, TokenError>)
    requires
        old(store).wf(),
        creation.manager.wf(),
    ensures
        final(store).wf(),
        creation.revocation is Some && !revoked ==> r == Err::<Address, _>(
            TokenError::LedgerDelegationFailed,
        ),
        (creation.revocation is None || revoked) && old(store)@.contains_key(creation.address@)
            ==> r == Err::<Address, _>(TokenError::AlreadyExists),
        r is Ok <==> (creation.revocation is None || revoked) && !old(store)@.contains_key(
            creation.address@,
        ),
        r is Ok ==> r == Ok::<Address, TokenError>(creation.address) && final(store)@ == old(store)@.insert(
            creation.address@,
            creation.manager,
        ),
        r is Err ==> final(store)@ == old(store)@,
{
    if creation.revocation.is_some() && !revoked {
        return Err(TokenError::LedgerDelegationFailed);
    }
    let address = creation.address;
    match store.allocate(address, creation.manager) {
        Ok(()) => Ok(address),
        Err(e) => Err(e),
    }
}

/// Valid parameters create a record wherever the asset's address derives and
/// holds no record yet, and the record's fields are exactly the parameters,
/// with a zero supply.
pub proof fn lemma_valid_parameters_create(
    records: Map<Seq<u8>, TokenManager>,
    ctx: CreateToken,
    params: TokenInitParams,
    a: Seq<u8>,
    b: u8,
)
    requires
        params.is_valid(),
        derived_address(token_manager_seed_spec(), ctx.token_mint@, ctx.program_id@) == Some((a, b)),
        !records.contains_key(a),
    ensures
        creation_outcome(records, ctx, params) == Ok::<(Seq<u8>, u8), TokenError>((a, b)),
        ({
            let m = initial_record(ctx, params, b);
            &&& m.name == params.name
            &&& m.symbol == params.symbol
            &&& m.uri == params.uri
            &&& m.decimals == params.decimals
            &&& m.max_supply == params.max_supply
            &&& m.is_mintable == params.is_mintable
            &&& m.is_freezable == params.is_freezable
            &&& m.is_burnable == params.is_burnable
            &&& m.transfer_fee_basis_points == params.transfer_fee_basis_points
            &&& m.fee_recipient == params.fee_recipient
            &&& m.current_supply == 0
            &&& m.wf()
        }),
{
}

/// A name longer than 32 bytes is refused with `NameTooLong`, whatever else
/// the parameters hold; the store is only read.
pub proof fn lemma_long_name_refused(records: Map<Seq<u8>, TokenManager>, ctx: CreateToken, params: TokenInitParams)
    requires
        crate::token::byte_len(params.name@) > 32,
    ensures
        creation_outcome(records, ctx, params) == Err::<(Seq<u8>, u8), _>(TokenError::NameTooLong),
{
}

/// A maximum supply of zero is refused with `InvalidMaxSupply` where name,
/// symbol, URI and decimals are within their bounds (those are checked
/// first).
pub proof fn lemma_zero_max_supply_refused(records: Map<Seq<u8>, TokenManager>, ctx: CreateToken, params: TokenInitParams)
    requires
        params.max_supply == 0,
        crate::token::byte_len(params.name@) <= 32,
        crate::token::byte_len(params.symbol@) <= 10,
        crate::token::byte_len(params.uri@) <= 200,
        params.decimals <= 9,
    ensures
        creation_outcome(records, ctx, params) == Err::<(Seq<u8>, u8), _>(TokenError::InvalidMaxSupply),
{
}

/// A transfer fee of 10001 basis points is refused with `InvalidTransferFee`
/// where every other parameter is valid (those are checked first), while one
/// of exactly 10000 is accepted.
pub proof fn lemma_transfer_fee_bound(
    records: Map<Seq<u8>, TokenManager>,
    ctx: CreateToken,
    params: TokenInitParams,
    a: Seq<u8>,
    b: u8,
)
    requires
        crate::token::byte_len(params.name@) <= 32,
        crate::token::byte_len(params.symbol@) <= 10,
        crate::token::byte_len(params.uri@) <= 200,
        params.decimals <= 9,
        params.max_supply > 0,
        derived_address(token_manager_seed_spec(), ctx.token_mint@, ctx.program_id@) == Some((a, b)),
        !records.contains_key(a),
    ensures
        params.transfer_fee_basis_points == 10001 ==> creation_outcome(records, ctx, params)
            == Err::<(Seq<u8>, u8), _>(TokenError::InvalidTransferFee),
        params.transfer_fee_basis_points == 10000 ==> creation_outcome(records, ctx, params)
            == Ok::<(Seq<u8>, u8), TokenError>((a, b)),
{
}

/// Once a creation for an asset has committed its record, a second creation
/// for the same asset is refused with `AlreadyExists`, whatever record the
/// first one stored.
pub proof fn lemma_second_creation_refused(
    records: Map<Seq<u8>, TokenManager>,
    ctx: CreateToken,
    params: TokenInitParams,
    a: Seq<u8>,
    b: u8,
    stored: TokenManager,
)
    requires
        creation_outcome(records, ctx, params) == Ok::<(Seq<u8>, u8), TokenError>((a, b)),
    ensures
        creation_outcome(records.insert(a, stored), ctx, params) == Err::<(Seq<u8>, u8), _>(
            TokenError::AlreadyExists,
        ),
{
}

} // verus!
