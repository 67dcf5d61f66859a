use biocoin::principal::Principal;
use biocoin::token::{
    data_access_payment, initialize, split_amount, transfer, DataAccessPayment, Initialize, Mint,
    TokenAccount, TokenError, Transfer,
};

fn who(b: u8) -> Principal {
    Principal::new([b; 32])
}

fn account(address: u8, authority: u8, amount: u64) -> TokenAccount {
    TokenAccount { address: who(address), authority: who(authority), amount, is_open: true }
}

fn payment(payer_balance: u64) -> DataAccessPayment {
    DataAccessPayment {
        researcher: account(10, 1, payer_balance),
        data_provider: account(11, 2, 0),
        platform: account(12, 3, 0),
        authority: who(1),
    }
}

#[test]
fn split_payment() {
    let mut ctx = payment(1_000_000);
    let t = data_access_payment(&mut ctx, 101, 5000).unwrap();
    assert_eq!(ctx.researcher.amount, 999_899);
    assert_eq!(ctx.data_provider.amount, 70);
    assert_eq!(ctx.platform.amount, 31);
    assert_eq!(t.amount, 101);
    assert_eq!(t.provider_share, 70);
    assert_eq!(t.platform_share, 31);
    assert_eq!(t.timestamp, 5000);
    assert!(t.researcher == who(10));
    assert!(t.data_provider == who(11));
}

#[test]
fn split_of_one() {
    assert_eq!(split_amount(1), (0, 1));
}

#[test]
fn split_of_ten() {
    assert_eq!(split_amount(10), (7, 3));
}

#[test]
fn split_of_two_to_the_63() {
    let amount: u64 = 1 << 63;
    let (provider, platform) = split_amount(amount);
    assert_eq!(provider as u128, (amount as u128) * 7 / 10);
    assert_eq!(provider, 6456360425798343065);
    assert_eq!(provider + platform, amount);
}

#[test]
fn split_of_largest_amount() {
    let (provider, platform) = split_amount(u64::MAX);
    assert_eq!(provider, 12912720851596686130);
    assert_eq!(provider as u128 + platform as u128, u64::MAX as u128);
}

#[test]
fn shares_always_make_up_the_amount() {
    for amount in [2u64, 3, 99, 100, 101, 12345, 999_999_999] {
        let (provider, platform) = split_amount(amount);
        assert_eq!(provider + platform, amount);
        assert_eq!(provider, amount * 7 / 10);
    }
}

#[test]
fn payment_of_zero_is_invalid() {
    let mut ctx = payment(1000);
    assert!(matches!(data_access_payment(&mut ctx, 0, 1), Err(TokenError::InvalidAmount)));
    assert_eq!(ctx.researcher.amount, 1000);
}

#[test]
fn payment_beyond_balance_fails_without_effect() {
    let mut ctx = payment(100);
    assert!(matches!(data_access_payment(&mut ctx, 101, 1), Err(TokenError::InsufficientFunds)));
    assert_eq!(ctx.researcher.amount, 100);
    assert_eq!(ctx.data_provider.amount, 0);
    assert_eq!(ctx.platform.amount, 0);
}

#[test]
fn payment_by_wrong_authority_is_unauthorized() {
    let mut ctx = payment(1000);
    ctx.authority = who(7);
    assert!(matches!(data_access_payment(&mut ctx, 10, 1), Err(TokenError::Unauthorized)));
    assert_eq!(ctx.researcher.amount, 1000);
}

#[test]
fn payment_to_closed_account_fails() {
    let mut ctx = payment(1000);
    ctx.platform.is_open = false;
    assert!(matches!(data_access_payment(&mut ctx, 10, 1), Err(TokenError::AccountClosed)));
    assert_eq!(ctx.researcher.amount, 1000);
    assert_eq!(ctx.data_provider.amount, 0);
}

#[test]
fn payment_overflowing_a_credit_fails() {
    let mut ctx = payment(1000);
    ctx.platform.amount = u64::MAX - 2;
    assert!(matches!(data_access_payment(&mut ctx, 10, 1), Err(TokenError::InvalidAmount)));
    assert_eq!(ctx.researcher.amount, 1000);
    assert_eq!(ctx.data_provider.amount, 0);
    assert_eq!(ctx.platform.amount, u64::MAX - 2);
}

#[test]
fn plain_transfer() {
    let mut ctx = Transfer { from: account(10, 1, 500), to: account(11, 2, 5), authority: who(1) };
    assert_eq!(transfer(&mut ctx, 200), Ok(()));
    assert_eq!(ctx.from.amount, 300);
    assert_eq!(ctx.to.amount, 205);
    assert_eq!(transfer(&mut ctx, 301), Err(TokenError::InsufficientFunds));
    assert_eq!(ctx.from.amount, 300);
    ctx.authority = who(2);
    assert_eq!(transfer(&mut ctx, 1), Err(TokenError::Unauthorized));
    ctx.authority = who(1);
    ctx.to.amount = u64::MAX;
    assert_eq!(transfer(&mut ctx, 1), Err(TokenError::InvalidAmount));
    ctx.to.is_open = false;
    assert_eq!(transfer(&mut ctx, 1), Err(TokenError::AccountClosed));
    assert_eq!(ctx.from.amount, 300);
}

fn fresh_mint() -> Initialize {
    Initialize {
        mint: Mint { address: who(20), mint_authority: who(0), decimals: 0, supply: 0, is_initialized: false },
        token_account: TokenAccount { address: who(21), authority: who(0), amount: 0, is_open: false },
        authority: who(1),
    }
}

#[test]
fn bootstrap_token() {
    let mut ctx = fresh_mint();
    let info = initialize(&mut ctx, String::from("BioCoin"), String::from("BIO"), 9, 1_000_000_000).unwrap();
    assert_eq!(info.name, "BioCoin");
    assert_eq!(info.symbol, "BIO");
    assert_eq!(info.decimals, 9);
    assert_eq!(info.total_supply, 1_000_000_000);
    assert!(info.authority == who(1));
    assert!(ctx.mint.is_initialized);
    assert_eq!(ctx.mint.supply, 1_000_000_000);
    assert_eq!(ctx.mint.decimals, 9);
    assert!(ctx.mint.mint_authority == who(1));
    assert!(ctx.token_account.is_open);
    assert_eq!(ctx.token_account.amount, 1_000_000_000);
    assert!(ctx.token_account.authority == who(1));
    let again = initialize(&mut ctx, String::from("BioCoin"), String::from("BIO"), 9, 5);
    assert!(matches!(again, Err(TokenError::AlreadyInitialized)));
    assert_eq!(ctx.mint.supply, 1_000_000_000);
}

#[test]
fn bootstrap_rejects_oversized_metadata() {
    let mut ctx = fresh_mint();
    let r = initialize(&mut ctx, "n".repeat(70), "s".repeat(7), 9, 1);
    assert!(matches!(r, Err(TokenError::InvalidInput)));
    assert!(!ctx.mint.is_initialized);
    let r = initialize(&mut ctx, "n".repeat(70), "s".repeat(6), 9, 1);
    assert!(r.is_ok());
}
