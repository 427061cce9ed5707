//! The asset control record, its creation parameters and its errors.

use vstd::prelude::*;

use crate::address::Address;

verus! {

pub const MAX_NAME_LEN: usize = 32;

pub const MAX_SYMBOL_LEN: usize = 10;

pub const MAX_URI_LEN: usize = 200;

pub const MAX_DECIMALS: u8 = 9;

/// 100% in basis points.
pub const MAX_TRANSFER_FEE_BASIS_POINTS: u16 = 10000;

/// Length of a string in UTF-8 code units, as `str::len` reports it.
pub open spec fn byte_len(s: Seq<char>) -> int {
    (vstd::utf8::encode_utf8(s).len() as usize) as int
}

/// Per-asset administrative record: configuration, capability flags and the
/// live supply counter of one fungible asset.
#[derive(Clone, Debug)]
pub struct TokenManager {
    /// Identity allowed to submit privileged operations on the asset.
    pub authority: Address,
    /// The asset this record governs.
    pub token_mint: Address,
    pub name: String,
    pub symbol: String,
    /// Where the asset's off-ledger metadata lives.
    pub uri: String,
    pub decimals: u8,
    /// Upper bound on mintable units.
    pub max_supply: u64,
    /// Units minted so far; never above `max_supply`.
    pub current_supply: u64,
    pub is_mintable: bool,
    pub is_freezable: bool,
    pub is_burnable: bool,
    /// Fee per transfer, in hundredths of a percent.
    pub transfer_fee_basis_points: u16,
    pub fee_recipient: Option<Address>,
    /// Ledger time of creation, in seconds.
    pub created_at: i64,
    /// The bump that, with the asset identity and the record tag, reproduces
    /// this record's own address.
    pub bump: u8,
}

impl TokenManager {
    /// Bytes reserved for the persisted record: an 8-byte discriminator, then
    /// the fields in declared order, strings length-prefixed at their bound.
    pub const LEN: usize = 8 + 32 + 32 + 4 + 32 + 4 + 10 + 4 + 200 + 1 + 8 + 8 + 1 + 1 + 1 + 2 + 1
        + 32 + 8 + 1;

    /// The invariant every stored record keeps.
    pub open spec fn wf(&self) -> bool {
        &&& byte_len(self.name@) <= MAX_NAME_LEN
        &&& byte_len(self.symbol@) <= MAX_SYMBOL_LEN
        &&& byte_len(self.uri@) <= MAX_URI_LEN
        &&& self.decimals <= MAX_DECIMALS
        &&& self.max_supply > 0
        &&& self.current_supply <= self.max_supply
        &&& self.transfer_fee_basis_points <= MAX_TRANSFER_FEE_BASIS_POINTS
    }

    /// Size of the record's persisted encoding: discriminator, then each field
    /// (a string as a 4-byte length and its bytes, an optional identity as a
    /// tag byte and, when present, the identity).
    pub open spec fn encoded_len(&self) -> int {
        8 + 32 + 32 + (4 + byte_len(self.name@)) + (4 + byte_len(self.symbol@)) + (4 + byte_len(
            self.uri@,
        )) + 1 + 8 + 8 + 1 + 1 + 1 + 2 + (if self.fee_recipient is Some {
            33int
        } else {
            1int
        }) + 8 + 1
    }

    /// Every well-formed record fits in the space reserved for it.
    pub proof fn lemma_encoded_len_fits(&self)
        requires
            self.wf(),
        ensures
            self.encoded_len() <= Self::LEN,
    {
    }
}

/// Parameters of an asset control record's creation.
#[derive(Clone, Debug)]
pub struct TokenInitParams {
    pub name: String,
    pub symbol: String,
    pub uri: String,
    pub decimals: u8,
    pub max_supply: u64,
    pub is_mintable: bool,
    pub is_freezable: bool,
    pub is_burnable: bool,
    pub transfer_fee_basis_points: u16,
    pub fee_recipient: Option<Address>,
}

/// Why an operation on an asset control record was refused.
#[derive(Clone, Copy, Debug, PartialEq, Eq, Structural)]
pub enum TokenError {
    /// The name is longer than 32 bytes.
    NameTooLong,
    /// The symbol is longer than 10 bytes.
    SymbolTooLong,
    /// The URI is longer than 200 bytes.
    UriTooLong,
    /// More than 9 decimals.
    InvalidDecimals,
    /// A maximum supply of zero.
    InvalidMaxSupply,
    /// A transfer fee above 100%.
    InvalidTransferFee,
    TokenNotMintable,
    ExceedsMaxSupply,
    InsufficientSupply,
    TokenNotBurnable,
    Unauthorized,
    /// A record already lives at the asset's derived address.
    AlreadyExists,
    /// No address could be derived for the asset.
    AddressUnavailable,
    /// The delegated call into the asset ledger did not go through.
    LedgerDelegationFailed,
}

impl TokenError {
    pub open spec fn message_spec(&self) -> Seq<char> {
        match self {
            TokenError::NameTooLong => "Token name too long (max 32 characters)"@,
            TokenError::SymbolTooLong => "Token symbol too long (max 10 characters)"@,
            TokenError::UriTooLong => "URI too long (max 200 characters)"@,
            TokenError::InvalidDecimals => "Invalid decimals (max 9)"@,
            TokenError::InvalidMaxSupply => "Invalid max supply (must be > 0)"@,
            TokenError::InvalidTransferFee => "Invalid transfer fee (max 100%)"@,
            TokenError::TokenNotMintable => "Token is not mintable"@,
            TokenError::ExceedsMaxSupply => "Exceeds max supply"@,
            TokenError::InsufficientSupply => "Insufficient token supply"@,
            TokenError::TokenNotBurnable => "Token is not burnable"@,
            TokenError::Unauthorized => "Unauthorized"@,
            TokenError::AlreadyExists => "Token already exists"@,
            TokenError::AddressUnavailable => "No derived address for this token"@,
            TokenError::LedgerDelegationFailed => "Delegated ledger call failed"@,
        }
    }

    /// The human-readable message of the error.
    pub fn message(&self) -> (r: &'static str)
        ensures
            r@ == self.message_spec(),
    {
        match self {
            TokenError::NameTooLong => "Token name too long (max 32 characters)",
            TokenError::SymbolTooLong => "Token symbol too long (max 10 characters)",
            TokenError::UriTooLong => "URI too long (max 200 characters)",
            TokenError::InvalidDecimals => "Invalid decimals (max 9)",
            TokenError::InvalidMaxSupply => "Invalid max supply (must be > 0)",
            TokenError::InvalidTransferFee => "Invalid transfer fee (max 100%)",
            TokenError::TokenNotMintable => "Token is not mintable",
            TokenError::ExceedsMaxSupply => "Exceeds max supply",
            TokenError::InsufficientSupply => "Insufficient token supply",
            TokenError::TokenNotBurnable => "Token is not burnable",
            TokenError::Unauthorized => "Unauthorized",
            TokenError::AlreadyExists => "Token already exists",
            TokenError::AddressUnavailable => "No derived address for this token",
            TokenError::LedgerDelegationFailed => "Delegated ledger call failed",
        }
    }
}

impl TokenInitParams {
    /// The first constraint that the parameters break, in the order name,
    /// symbol, URI, decimals, maximum supply, transfer fee; `None` where they
    /// meet all of them.
    pub open spec fn violation(&self) -> Option<TokenError> {
        if byte_len(self.name@) > MAX_NAME_LEN {
            Some(TokenError::NameTooLong)
        } else if byte_len(self.symbol@) > MAX_SYMBOL_LEN {
            Some(TokenError::SymbolTooLong)
        } else if byte_len(self.uri@) > MAX_URI_LEN {
            Some(TokenError::UriTooLong)
        } else if self.decimals > MAX_DECIMALS {
            Some(TokenError::InvalidDecimals)
        } else if self.max_supply == 0 {
            Some(TokenError::InvalidMaxSupply)
        } else if self.transfer_fee_basis_points > MAX_TRANSFER_FEE_BASIS_POINTS {
            Some(TokenError::InvalidTransferFee)
        } else {
            None
        }
    }

    pub open spec fn is_valid(&self) -> bool {
        self.violation() is None
    }

    /// Checks every creation constraint; fails with the first one broken.
    pub fn validate(&self) -> (r: Result<(), TokenError>)
        ensures
            r is Ok <==> self.is_valid(),
            r matches Err(e) ==> self.violation() == Some(e),
    {
        if self.name.as_str().len() > MAX_NAME_LEN {
            return Err(TokenError::NameTooLong);
        }
        if self.symbol.as_str().len() > MAX_SYMBOL_LEN {
            return Err(TokenError::SymbolTooLong);
        }
        if self.uri.as_str().len() > MAX_URI_LEN {
            return Err(TokenError::UriTooLong);
        }
        if self.decimals > MAX_DECIMALS {
            return Err(TokenError::InvalidDecimals);
        }
        if self.max_supply == 0 {
            return Err(TokenError::InvalidMaxSupply);
        }
        if self.transfer_fee_basis_points > MAX_TRANSFER_FEE_BASIS_POINTS {
            return Err(TokenError::InvalidTransferFee);
        }
        Ok(())
    }
}

} // verus!
