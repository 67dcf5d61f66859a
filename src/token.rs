//! The platform's unit of account: bootstrap, plain transfers, and the split payment
//! that pays for access to data.
use vstd::prelude::*;
use crate::principal::Principal;
use crate::text::{byte_len, utf8_len};

verus! {

/// Largest serialized size in bytes of a token's metadata.
pub const MAX_TOKEN_INFO_LEN: usize = 125;

/// Bytes of the token metadata layout other than the two texts: two length prefixes,
/// the decimals, the total supply and the authority.
pub const TOKEN_INFO_FIXED_LEN: usize = 49;

/// Per cent of each payment that goes to the data provider.
pub const PROVIDER_PERCENT: u64 = 70;

#[derive(Clone, Copy, Debug, PartialEq, Eq, Structural)]
pub enum TokenError {
    /// The signing authority has no rights over the account it acts on.
    Unauthorized,
    /// A payment of zero, or a credit that would overflow a balance or the supply.
    InvalidAmount,
    /// The paying account holds less than the amount.
    InsufficientFunds,
    /// An account taking part is not open.
    AccountClosed,
    /// A mint or an account to be set up is set up already.
    AlreadyInitialized,
    /// The metadata texts do not fit their layout.
    InvalidInput,
}

/// A balance of the platform's token, held under an authority.
#[derive(Clone, Copy, Debug)]
pub struct TokenAccount {
    pub address: Principal,
    pub authority: Principal,
    pub amount: u64,
    pub is_open: bool,
}

/// The issuer of the platform's token.
#[derive(Clone, Copy, Debug)]
pub struct Mint {
    pub address: Principal,
    pub mint_authority: Principal,
    pub decimals: u8,
    pub supply: u64,
    pub is_initialized: bool,
}

/// Metadata of the platform's unit of account, written once at bootstrap.
#[derive(Clone, Debug)]
pub struct TokenInfo {
    pub name: String,
    pub symbol: String,
    pub decimals: u8,
    pub total_supply: u64,
    pub authority: Principal,
}

/// Token metadata as a mathematical value.
pub struct TokenInfoView {
    pub name: Seq<char>,
    pub symbol: Seq<char>,
    pub decimals: u8,
    pub total_supply: u64,
    pub authority: Seq<u8>,
}

impl View for TokenInfo {
    type V = TokenInfoView;

    open spec fn view(&self) -> TokenInfoView {
        TokenInfoView {
            name: self.name@,
            symbol: self.symbol@,
            decimals: self.decimals,
            total_supply: self.total_supply,
            authority: self.authority@,
        }
    }
}

impl TokenInfo {
    /// The serialized metadata fits its layout.
    pub open spec fn wf(&self) -> bool {
        byte_len(self.name@) + byte_len(self.symbol@) + TOKEN_INFO_FIXED_LEN <= MAX_TOKEN_INFO_LEN
    }
}

/// An immutable record of one split payment.
#[derive(Clone, Copy, Debug)]
pub struct TransactionRecord {
    pub researcher: Principal,
    pub data_provider: Principal,
    pub amount: u64,
    pub provider_share: u64,
    pub platform_share: u64,
    pub timestamp: i64,
}

impl TransactionRecord {
    /// The two shares make up the amount, and the provider's is the floor of 70 per cent.
    pub open spec fn wf(&self) -> bool {
        &&& self.provider_share as int + self.platform_share as int == self.amount as int
        &&& self.provider_share as int == provider_share_of(self.amount as int)
    }
}

/// The mint and the account that receives the whole initial supply, with the
/// authority that signs for both.
pub struct Initialize {
    pub mint: Mint,
    pub token_account: TokenAccount,
    pub authority: Principal,
}

/// Two accounts and the authority that signs for the paying one.
pub struct Transfer {
    pub from: TokenAccount,
    pub to: TokenAccount,
    pub authority: Principal,
}

/// The paying, the receiving and the platform's account, with the payer's authority.
pub struct DataAccessPayment {
    pub researcher: TokenAccount,
    pub data_provider: TokenAccount,
    pub platform: TokenAccount,
    pub authority: Principal,
}

/// The data provider's share of a payment: 70 per cent, rounded down.
pub open spec fn provider_share_of(amount: int) -> int {
    amount * 70 / 100
}

/// Splits an amount into the provider's and the platform's share; the remainder of
/// the rounding goes to the platform. The product is formed in 128 bits.
pub fn split_amount(amount: u64) -> (r: (u64, u64))
    ensures
        r.0 as int == provider_share_of(amount as int),
        r.0 as int + r.1 as int == amount as int,
{
    let wide: u128 = amount as u128 * PROVIDER_PERCENT as u128 / 100;
    assert(wide <= amount) by (nonlinear_arith)
        requires
            wide == amount as u128 * 70 / 100,
    ;
    let provider_share: u64 = wide as u64;
    let platform_share: u64 = amount - provider_share;
    (provider_share, platform_share)
}

/// Why moving `amount` out of `from` into `to` under `authority` fails, if it does.
pub open spec fn transfer_error(ctx: Transfer, amount: u64) -> Option<TokenError> {
    if !ctx.from.is_open || !ctx.to.is_open {
        Some(TokenError::AccountClosed)
    } else if ctx.from.authority@ != ctx.authority@ {
        Some(TokenError::Unauthorized)
    } else if ctx.from.amount < amount {
        Some(TokenError::InsufficientFunds)
    } else if ctx.to.amount as int + amount as int > u64::MAX {
        Some(TokenError::InvalidAmount)
    } else {
        None
    }
}

/// Moves `amount` from one account to another, signed by the paying account's authority.
/// On failure nothing changes.
pub fn transfer(ctx: &mut Transfer, amount: u64) -> (r: Result<(), TokenError>)
    ensures
        transfer_error(*old(ctx), amount) matches Some(e) ==> r == Err::<(), TokenError>(e)
            && *final(ctx) == *old(ctx),
        transfer_error(*old(ctx), amount) is None ==> {
            &&& r is Ok
            &&& final(ctx).from == (TokenAccount {
                amount: (old(ctx).from.amount - amount) as u64,
                ..old(ctx).from
            })
            &&& final(ctx).to == (TokenAccount {
                amount: (old(ctx).to.amount + amount) as u64,
                ..old(ctx).to
            })
            &&& final(ctx).authority == old(ctx).authority
        },
{
    if !ctx.from.is_open || !ctx.to.is_open {
        return Err(TokenError::AccountClosed);
    }
    if !ctx.from.authority.same_as(&ctx.authority) {
        return Err(TokenError::Unauthorized);
    }
    if ctx.from.amount < amount {
        return Err(TokenError::InsufficientFunds);
    }
    if ctx.to.amount > u64::MAX - amount {
        return Err(TokenError::InvalidAmount);
    }
    ctx.from.amount = ctx.from.amount - amount;
    ctx.to.amount = ctx.to.amount + amount;
    Ok(())
}

/// Why a split payment of `amount` fails, if it does; the first failing check wins.
pub open spec fn payment_error(ctx: DataAccessPayment, amount: u64) -> Option<TokenError> {
    let provider_share = provider_share_of(amount as int);
    if !ctx.researcher.is_open || !ctx.data_provider.is_open || !ctx.platform.is_open {
        Some(TokenError::AccountClosed)
    } else if ctx.researcher.authority@ != ctx.authority@ {
        Some(TokenError::Unauthorized)
    } else if amount == 0 {
        Some(TokenError::InvalidAmount)
    } else if ctx.researcher.amount < amount {
        Some(TokenError::InsufficientFunds)
    } else if ctx.data_provider.amount as int + provider_share > u64::MAX
        || ctx.platform.amount as int + (amount - provider_share) > u64::MAX {
        Some(TokenError::InvalidAmount)
    } else {
        None
    }
}

/// Pays for access to data: debits `amount` from the researcher, credits the provider
/// with 70 per cent rounded down and the platform with the rest, and returns the record
/// of the payment stamped `now`. Either all of it happens or nothing does.
pub fn data_access_payment(ctx: &mut DataAccessPayment, amount: u64, now: i64) -> (r: Result<
    TransactionRecord,
    TokenError,
>)
    ensures
        payment_error(*old(ctx), amount) matches Some(e) ==> r == Err::<
            TransactionRecord,
            TokenError,
        >(e) && *final(ctx) == *old(ctx),
        payment_error(*old(ctx), amount) is None ==> {
            let provider_share = provider_share_of(amount as int);
            &&& r == Ok::<TransactionRecord, TokenError>(
                (TransactionRecord {
                    researcher: old(ctx).researcher.address,
                    data_provider: old(ctx).data_provider.address,
                    amount,
                    provider_share: provider_share as u64,
                    platform_share: (amount - provider_share) as u64,
                    timestamp: now,
                }),
            )
            &&& final(ctx).researcher == (TokenAccount {
                amount: (old(ctx).researcher.amount - amount) as u64,
                ..old(ctx).researcher
            })
            &&& final(ctx).data_provider == (TokenAccount {
                amount: (old(ctx).data_provider.amount + provider_share) as u64,
                ..old(ctx).data_provider
            })
            &&& final(ctx).platform == (TokenAccount {
                amount: (old(ctx).platform.amount + amount - provider_share) as u64,
                ..old(ctx).platform
            })
            &&& final(ctx).authority == old(ctx).authority
        },
        r matches Ok(t) ==> t.wf(),
{
    if !ctx.researcher.is_open || !ctx.data_provider.is_open || !ctx.platform.is_open {
        return Err(TokenError::AccountClosed);
    }
    if !ctx.researcher.authority.same_as(&ctx.authority) {
        return Err(TokenError::Unauthorized);
    }
    if amount == 0 {
        return Err(TokenError::InvalidAmount);
    }
    if ctx.researcher.amount < amount {
        return Err(TokenError::InsufficientFunds);
    }
    let (provider_share, platform_share) = split_amount(amount);
    if ctx.data_provider.amount > u64::MAX - provider_share || ctx.platform.amount > u64::MAX
        - platform_share {
        return Err(TokenError::InvalidAmount);
    }
    ctx.researcher.amount = ctx.researcher.amount - amount;
    ctx.data_provider.amount = ctx.data_provider.amount + provider_share;
    ctx.platform.amount = ctx.platform.amount + platform_share;
    Ok(
        TransactionRecord {
            researcher: ctx.researcher.address,
            data_provider: ctx.data_provider.address,
            amount,
            provider_share,
            platform_share,
            timestamp: now,
        },
    )
}

/// Why bootstrapping the token fails, if it does; the first failing check wins.
pub open spec fn initialize_error(ctx: Initialize, name: Seq<char>, symbol: Seq<char>) -> Option<
    TokenError,
> {
    if byte_len(name) + byte_len(symbol) + TOKEN_INFO_FIXED_LEN > MAX_TOKEN_INFO_LEN {
        Some(TokenError::InvalidInput)
    } else if ctx.mint.is_initialized || ctx.token_account.is_open {
        Some(TokenError::AlreadyInitialized)
    } else {
        None
    }
}

/// Bootstraps the platform's token: sets up the mint under the signing authority, opens
/// the authority's account for it, issues the whole supply into that account, and returns
/// the token's metadata. On failure nothing changes.
pub fn initialize(
    ctx: &mut Initialize,
    name: String,
    symbol: String,
    decimals: u8,
    total_supply: u64,
) -> (r: Result<TokenInfo, TokenError>)
    ensures
        initialize_error(*old(ctx), name@, symbol@) matches Some(e) ==> r == Err::<
            TokenInfo,
            TokenError,
        >(e) && *final(ctx) == *old(ctx),
        initialize_error(*old(ctx), name@, symbol@) is None ==> {
            &&& r == Ok::<TokenInfo, TokenError>(
                (TokenInfo { name, symbol, decimals, total_supply, authority: old(ctx).authority }),
            )
            &&& final(ctx).mint == (Mint {
                mint_authority: old(ctx).authority,
                decimals,
                supply: total_supply,
                is_initialized: true,
                ..old(ctx).mint
            })
            &&& final(ctx).token_account == (TokenAccount {
                authority: old(ctx).authority,
                amount: total_supply,
                is_open: true,
                ..old(ctx).token_account
            })
            &&& final(ctx).authority == old(ctx).authority
        },
        r matches Ok(info) ==> info.wf(),
{
    if utf8_len(&name) > MAX_TOKEN_INFO_LEN || utf8_len(&symbol) > MAX_TOKEN_INFO_LEN
        || utf8_len(&name) + utf8_len(&symbol) + TOKEN_INFO_FIXED_LEN > MAX_TOKEN_INFO_LEN {
        return Err(TokenError::InvalidInput);
    }
    if ctx.mint.is_initialized || ctx.token_account.is_open {
        return Err(TokenError::AlreadyInitialized);
    }
    ctx.mint.mint_authority = ctx.authority;
    ctx.mint.decimals = decimals;
    ctx.mint.supply = total_supply;
    ctx.mint.is_initialized = true;
    ctx.token_account.authority = ctx.authority;
    ctx.token_account.amount = total_supply;
    ctx.token_account.is_open = true;
    Ok(TokenInfo { name, symbol, decimals, total_supply, authority: ctx.authority })
}

} // verus!
