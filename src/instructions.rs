//! The sale's operations, each on the accounts it reads and writes. Oracle
//! readings arrive as values; transfers are returned as amounts for the
//! caller to carry out. A rejected operation leaves every account unchanged.

use vstd::prelude::*;
use crate::conversion::{conversion, convert_mint};
use crate::error::PreSaleProgramError;
use crate::pubkey::Pubkey;
use crate::state::{
    feed_assets_unique, feed_registered, has_unique_assets, DataFeed, PriceFeedInfo,
    ProgramConfig, UserInfo, VaultInfo,
};
use crate::vesting::{calculate_claimable_amount, claimable_units};

verus! {

broadcast use vstd::array::group_array_axioms;

/// A conversion, with the decimal engine's failures as the ledger's.
pub open spec fn truncated_conversion(
    from_amount: u64,
    from_decimals: u8,
    from_price: u64,
    from_price_decimals: u8,
    feed_value: u64,
    feed_decimals: u8,
    to_decimals: u8,
) -> Result<u64, PreSaleProgramError> {
    match conversion(
        from_amount,
        from_decimals,
        from_price,
        from_price_decimals,
        feed_value,
        feed_decimals,
        to_decimals,
    ) {
        Ok(v) => Ok(v),
        Err(e) => Err(PreSaleProgramError::of_decimal(e)),
    }
}

fn convert_to_amount(
    from_amount: u64,
    from_decimals: u8,
    from_price: u64,
    from_price_decimals: u8,
    feed_value: u64,
    feed_decimals: u8,
    to_decimals: u8,
) -> (r: Result<u64, PreSaleProgramError>)
    ensures
        r == truncated_conversion(
            from_amount,
            from_decimals,
            from_price,
            from_price_decimals,
            feed_value,
            feed_decimals,
            to_decimals,
        ),
{
    match convert_mint(
        from_amount,
        from_decimals,
        from_price,
        from_price_decimals,
        feed_value,
        feed_decimals,
        to_decimals,
    ) {
        Ok(v) => Ok(v),
        Err(e) => Err(PreSaleProgramError::from_decimal(e)),
    }
}

/// Why the oracle accounts named for pricing `payer_mint` are refused: the
/// feed is not the one registered for that asset, or the oracle program is
/// not the configured one.
pub open spec fn oracle_error(
    config: ProgramConfig,
    payer_mint: Pubkey,
    chainlink_feed: Pubkey,
    chainlink_program: Pubkey,
) -> Option<PreSaleProgramError> {
    if !feed_registered(config.feeds@, payer_mint, chainlink_feed) {
        Some(PreSaleProgramError::InvalidChainlinkFeed)
    } else if chainlink_program != config.chainlink_program {
        Some(PreSaleProgramError::InvalidChainlinkProgram)
    } else {
        None
    }
}

/// Checks the oracle accounts named for pricing `payer_mint` before they
/// are read.
pub fn check_oracle(
    config: &ProgramConfig,
    payer_mint: &Pubkey,
    chainlink_feed: &Pubkey,
    chainlink_program: &Pubkey,
) -> (r: Option<PreSaleProgramError>)
    ensures
        r == oracle_error(*config, *payer_mint, *chainlink_feed, *chainlink_program),
{
    if !config.is_feed_registered(payer_mint, chainlink_feed) {
        return Some(PreSaleProgramError::InvalidChainlinkFeed);
    }
    if *chainlink_program != config.chainlink_program {
        return Some(PreSaleProgramError::InvalidChainlinkProgram);
    }
    None
}

/// Whether a feed reading is a positive price that fits in a `u64`.
pub open spec fn price_readable(round: DataFeed) -> bool {
    0 < round.value <= u64::MAX
}

/// The amount of vault asset (at `vault_decimals`) that `payer_amount` of a
/// payer asset (at `payer_decimals`) buys, when the feed prices the payer
/// asset and one vault-asset unit costs `usd_price` at `usd_decimals`.
pub open spec fn token_amount(
    usd_price: u64,
    usd_decimals: u8,
    payer_amount: u64,
    payer_decimals: u8,
    vault_decimals: u8,
    round: DataFeed,
) -> Result<u64, PreSaleProgramError> {
    if !price_readable(round) {
        Err(PreSaleProgramError::InvalidPriceFeed)
    } else {
        truncated_conversion(
            payer_amount,
            payer_decimals,
            round.value as u64,
            round.decimals,
            usd_price,
            usd_decimals,
            vault_decimals,
        )
    }
}

/// The amount of a payer asset (at `payer_decimals`) that `vault_amount` of
/// the vault asset (at `vault_decimals`) costs; an amount that truncates to
/// zero is rejected.
pub open spec fn payer_token_amount(
    usd_price: u64,
    usd_decimals: u8,
    vault_amount: u64,
    vault_decimals: u8,
    payer_decimals: u8,
    round: DataFeed,
) -> Result<u64, PreSaleProgramError> {
    if !price_readable(round) {
        Err(PreSaleProgramError::InvalidPriceFeed)
    } else {
        match truncated_conversion(
            vault_amount,
            vault_decimals,
            usd_price,
            usd_decimals,
            round.value as u64,
            round.decimals,
            payer_decimals,
        ) {
            Ok(v) => if v == 0 {
                Err(PreSaleProgramError::BelowMinimalValue)
            } else {
                Ok(v)
            },
            Err(e) => Err(e),
        }
    }
}

/// What a price query reads.
#[derive(Debug)]
pub struct GetTokenAmount {
    pub program_config: ProgramConfig,
    pub vault_mint_decimals: u8,
    pub payer_mint: Pubkey,
    pub payer_mint_decimals: u8,
    pub chainlink_feed: Pubkey,
    pub chainlink_program: Pubkey,
}

/// What a cost query reads.
#[derive(Debug)]
pub struct GetPayerTokenAmount {
    pub program_config: ProgramConfig,
    pub vault_mint_decimals: u8,
    pub payer_mint: Pubkey,
    pub payer_mint_decimals: u8,
    pub chainlink_feed: Pubkey,
    pub chainlink_program: Pubkey,
}

/// The amount that a query asks about.
#[derive(Debug, Clone, Copy)]
pub struct GetTokenAmountArgs {
    pub amount: u64,
}

/// How much of the vault asset `args.amount` of the payer asset buys, by the
/// same checks on the oracle accounts and the same arithmetic as a purchase.
pub fn get_token_amount(ctx: &GetTokenAmount, args: GetTokenAmountArgs, round: &DataFeed) -> (r:
    Result<u64, PreSaleProgramError>)
    ensures
        r == match oracle_error(
            ctx.program_config,
            ctx.payer_mint,
            ctx.chainlink_feed,
            ctx.chainlink_program,
        ) {
            Some(e) => Err(e),
            None => token_amount(
                ctx.program_config.usd_price,
                ctx.program_config.usd_decimals,
                args.amount,
                ctx.payer_mint_decimals,
                ctx.vault_mint_decimals,
                *round,
            ),
        },
{
    if let Some(e) = check_oracle(
        &ctx.program_config,
        &ctx.payer_mint,
        &ctx.chainlink_feed,
        &ctx.chainlink_program,
    ) {
        return Err(e);
    }
    quote_token_amount(
        ctx.program_config.usd_price,
        ctx.program_config.usd_decimals,
        args.amount,
        ctx.payer_mint_decimals,
        ctx.vault_mint_decimals,
        round,
    )
}

fn quote_token_amount(
    usd_price: u64,
    usd_decimals: u8,
    payer_amount: u64,
    payer_decimals: u8,
    vault_decimals: u8,
    round: &DataFeed,
) -> (r: Result<u64, PreSaleProgramError>)
    ensures
        r == token_amount(usd_price, usd_decimals, payer_amount, payer_decimals, vault_decimals, *round),
{
    if round.value <= 0 || round.value > u64::MAX as i128 {
        return Err(PreSaleProgramError::InvalidPriceFeed);
    }
    convert_to_amount(
        payer_amount,
        payer_decimals,
        round.value as u64,
        round.decimals,
        usd_price,
        usd_decimals,
        vault_decimals,
    )
}

/// How much of the payer asset `args.amount` of the vault asset costs, once
/// the oracle accounts check out.
pub fn get_payer_token_amount(
    ctx: &GetPayerTokenAmount,
    args: GetTokenAmountArgs,
    round: &DataFeed,
) -> (r: Result<u64, PreSaleProgramError>)
    ensures
        r == match oracle_error(
            ctx.program_config,
            ctx.payer_mint,
            ctx.chainlink_feed,
            ctx.chainlink_program,
        ) {
            Some(e) => Err(e),
            None => payer_token_amount(
                ctx.program_config.usd_price,
                ctx.program_config.usd_decimals,
                args.amount,
                ctx.vault_mint_decimals,
                ctx.payer_mint_decimals,
                *round,
            ),
        },
{
    if let Some(e) = check_oracle(
        &ctx.program_config,
        &ctx.payer_mint,
        &ctx.chainlink_feed,
        &ctx.chainlink_program,
    ) {
        return Err(e);
    }
    if round.value <= 0 || round.value > u64::MAX as i128 {
        return Err(PreSaleProgramError::InvalidPriceFeed);
    }
    let payer_mint_amount = convert_to_amount(
        args.amount,
        ctx.vault_mint_decimals,
        ctx.program_config.usd_price,
        ctx.program_config.usd_decimals,
        round.value as u64,
        round.decimals,
        ctx.payer_mint_decimals,
    )?;
    if payer_mint_amount == 0 {
        return Err(PreSaleProgramError::BelowMinimalValue);
    }
    Ok(payer_mint_amount)
}

/// The accounts a purchase reads and writes, as the values the sale needs.
#[derive(Debug)]
pub struct BuyTokens {
    pub program_config: ProgramConfig,
    pub vault_account: VaultInfo,
    pub user_info_account: UserInfo,
    pub payer_mint: Pubkey,
    pub payer_mint_decimals: u8,
    pub chainlink_feed: Pubkey,
    pub chainlink_program: Pubkey,
    pub collected_funds_account: Pubkey,
}

/// The amount of the payer asset that a buyer spends.
#[derive(Debug, Clone, Copy)]
pub struct BuyTokensArgs {
    pub amount: u64,
}

/// The outcome of a purchase of `amount` of the payer asset: the amount of
/// vault asset credited to the buyer, or why the purchase is rejected.
pub open spec fn purchase_outcome(ctx: BuyTokens, amount: u64, round: DataFeed) -> Result<
    u64,
    PreSaleProgramError,
> {
    let config = ctx.program_config;
    if config.has_presale_ended {
        Err(PreSaleProgramError::PreSaleEnded)
    } else if amount == 0 {
        Err(PreSaleProgramError::InvalidTokenAmount)
    } else if oracle_error(config, ctx.payer_mint, ctx.chainlink_feed, ctx.chainlink_program)
        is Some {
        Err(oracle_error(config, ctx.payer_mint, ctx.chainlink_feed, ctx.chainlink_program)->0)
    } else if ctx.collected_funds_account != config.collected_funds_account {
        Err(PreSaleProgramError::InvalidCollectedFundsAccount)
    } else {
        match token_amount(
            config.usd_price,
            config.usd_decimals,
            amount,
            ctx.payer_mint_decimals,
            ctx.vault_account.decimals,
            round,
        ) {
            Err(e) => Err(e),
            Ok(v) => if v == 0 {
                Err(PreSaleProgramError::BelowMinimalValue)
            } else if v > ctx.vault_account.stake {
                Err(PreSaleProgramError::InsufficientVaultBalance)
            } else if ctx.user_info_account.stake + v > u64::MAX || ctx.user_info_account.balance
                + v > u64::MAX {
                Err(PreSaleProgramError::MathOverflow)
            } else {
                Ok(v)
            },
        }
    }
}

/// `amount` of the vault asset moved from the vault's reserve to a holder,
/// who also counts it as purchased.
pub open spec fn credited(
    vault: VaultInfo,
    user: UserInfo,
    new_vault: VaultInfo,
    new_user: UserInfo,
    amount: int,
) -> bool {
    &&& new_vault.stake == vault.stake - amount
    &&& new_vault.decimals == vault.decimals
    &&& new_user.stake == user.stake + amount
    &&& new_user.balance == user.balance + amount
}

/// Buys vault asset with `args.amount` of the payer asset at the price that
/// `round` reads from the payer asset's feed. On success the vault's reserve
/// is debited and the buyer's stake and balance are credited with the amount
/// returned; the caller then moves `args.amount` of the payer asset to the
/// collected-funds account.
pub fn buy_tokens(ctx: &mut BuyTokens, args: BuyTokensArgs, round: &DataFeed) -> (r: Result<
    u64,
    PreSaleProgramError,
>)
    ensures
        r == purchase_outcome(*old(ctx), args.amount, *round),
        match r {
            Ok(v) => {
                &&& credited(
                    old(ctx).vault_account,
                    old(ctx).user_info_account,
                    final(ctx).vault_account,
                    final(ctx).user_info_account,
                    v as int,
                )
                &&& final(ctx).program_config == old(ctx).program_config
                &&& final(ctx).payer_mint == old(ctx).payer_mint
                &&& final(ctx).payer_mint_decimals == old(ctx).payer_mint_decimals
                &&& final(ctx).chainlink_feed == old(ctx).chainlink_feed
                &&& final(ctx).chainlink_program == old(ctx).chainlink_program
                &&& final(ctx).collected_funds_account == old(ctx).collected_funds_account
            },
            Err(_) => *final(ctx) == *old(ctx),
        },
{
    let amount = args.amount;
    if ctx.program_config.has_presale_ended {
        return Err(PreSaleProgramError::PreSaleEnded);
    }
    if amount == 0 {
        return Err(PreSaleProgramError::InvalidTokenAmount);
    }
    if let Some(e) = check_oracle(
        &ctx.program_config,
        &ctx.payer_mint,
        &ctx.chainlink_feed,
        &ctx.chainlink_program,
    ) {
        return Err(e);
    }
    if ctx.collected_funds_account != ctx.program_config.collected_funds_account {
        return Err(PreSaleProgramError::InvalidCollectedFundsAccount);
    }
    let vault_amount = quote_token_amount(
        ctx.program_config.usd_price,
        ctx.program_config.usd_decimals,
        amount,
        ctx.payer_mint_decimals,
        ctx.vault_account.decimals,
        round,
    )?;
    if vault_amount == 0 {
        return Err(PreSaleProgramError::BelowMinimalValue);
    }
    if vault_amount > ctx.vault_account.stake {
        return Err(PreSaleProgramError::InsufficientVaultBalance);
    }
    let user_stake = match ctx.user_info_account.stake.checked_add(vault_amount) {
        Some(s) => s,
        None => return Err(PreSaleProgramError::MathOverflow),
    };
    let user_balance = match ctx.user_info_account.balance.checked_add(vault_amount) {
        Some(b) => b,
        None => return Err(PreSaleProgramError::MathOverflow),
    };
    ctx.vault_account.stake = ctx.vault_account.stake - vault_amount;
    ctx.user_info_account.stake = user_stake;
    ctx.user_info_account.balance = user_balance;
    Ok(vault_amount)
}

/// How the payer asset reaches the collected-funds account.
#[derive(PartialEq, Eq, Structural, Debug, Clone, Copy)]
pub enum CollectorRoute {
    /// A direct transfer of the chain's native currency.
    Native,
    /// A transfer between token accounts of the payer mint.
    Token,
}

/// The route for a payment in `payer_mint`: the wrapped native asset is paid
/// in native currency, every other asset by token transfer.
pub fn collector_route(payer_mint: &Pubkey) -> (r: CollectorRoute)
    ensures
        r == if payer_mint.bytes@ == Pubkey::native_mint_bytes() {
            CollectorRoute::Native
        } else {
            CollectorRoute::Token
        },
{
    let native = Pubkey::native_mint();
    proof {
        assert(payer_mint.bytes@ == native.bytes@ ==> payer_mint.bytes =~= native.bytes);
    }
    if *payer_mint == native {
        CollectorRoute::Native
    } else {
        CollectorRoute::Token
    }
}

/// The accounts a claim reads and writes.
#[derive(Debug)]
pub struct ClaimTokens {
    pub program_config: ProgramConfig,
    pub user_info_account: UserInfo,
}

/// The outcome of a claim: the amount released to the holder, or why the
/// claim is rejected.
pub open spec fn claim_outcome(config: ProgramConfig, user: UserInfo) -> Result<
    u64,
    PreSaleProgramError,
> {
    if !config.has_presale_ended {
        Err(PreSaleProgramError::PreSaleStillOn)
    } else if user.balance == 0 || config.available_percentage == 0 {
        Err(PreSaleProgramError::InsufficientVaultBalance)
    } else if claimable_units(
        user.stake as int,
        user.balance as int,
        config.available_percentage as int,
    ) <= 0 {
        Err(PreSaleProgramError::InsufficientVaultBalance)
    } else {
        Ok(
            claimable_units(
                user.stake as int,
                user.balance as int,
                config.available_percentage as int,
            ) as u64,
        )
    }
}

/// Releases to the holder, once the sale has closed, the part of their
/// balance that the unlock percentage frees, truncated to whole units. The
/// balance is debited by the amount returned, which the caller then moves to
/// the holder; the stake is unchanged.
pub fn claim_tokens(ctx: &mut ClaimTokens) -> (r: Result<u64, PreSaleProgramError>)
    requires
        old(ctx).program_config.wf(),
    ensures
        r == claim_outcome(old(ctx).program_config, old(ctx).user_info_account),
        match r {
            Ok(v) => {
                &&& final(ctx).user_info_account.balance == old(ctx).user_info_account.balance - v
                &&& final(ctx).user_info_account.stake == old(ctx).user_info_account.stake
                &&& final(ctx).program_config == old(ctx).program_config
            },
            Err(_) => *final(ctx) == *old(ctx),
        },
{
    let stake = ctx.user_info_account.stake;
    let balance = ctx.user_info_account.balance;
    let percentage = ctx.program_config.available_percentage;
    if !ctx.program_config.has_presale_ended {
        return Err(PreSaleProgramError::PreSaleStillOn);
    }
    if balance == 0 || percentage == 0 {
        return Err(PreSaleProgramError::InsufficientVaultBalance);
    }
    let d_claimable_amount = calculate_claimable_amount(stake, balance, percentage as u64);
    proof {
        let h = crate::vesting::claimable_hundredths(stake as int, balance as int, percentage as int);
        assert(stake * (100 - percentage) >= 0) by (nonlinear_arith)
            requires
                percentage <= 100,
        ;
        assert(0 <= h / 100 <= balance) by (nonlinear_arith)
            requires
                0 <= h <= 100 * balance,
        ;
    }
    let claimable_amount = match d_claimable_amount.to_u64() {
        Some(v) => v,
        None => return Err(PreSaleProgramError::ConversionError),
    };
    if claimable_amount == 0 {
        return Err(PreSaleProgramError::InsufficientVaultBalance);
    }
    ctx.user_info_account.balance = balance - claimable_amount;
    Ok(claimable_amount)
}

/// The vault's reserve, as an administrator's sweep sees it.
#[derive(Debug)]
pub struct WithdrawTokens {
    pub vault_account: VaultInfo,
}

/// Empties the vault's reserve and returns the amount, which the caller then
/// moves to the administrator. An empty vault is rejected.
pub fn withdraw_tokens(ctx: &mut WithdrawTokens) -> (r: Result<u64, PreSaleProgramError>)
    ensures
        old(ctx).vault_account.stake == 0 ==> r == Err::<u64, PreSaleProgramError>(
            PreSaleProgramError::InsufficientVaultBalance,
        ) && *final(ctx) == *old(ctx),
        old(ctx).vault_account.stake > 0 ==> r == Ok::<u64, PreSaleProgramError>(
            old(ctx).vault_account.stake,
        ) && final(ctx).vault_account.stake == 0 && final(ctx).vault_account.decimals == old(
            ctx,
        ).vault_account.decimals,
{
    let amount = ctx.vault_account.stake;
    if amount == 0 {
        return Err(PreSaleProgramError::InsufficientVaultBalance);
    }
    ctx.vault_account.stake = 0;
    Ok(amount)
}

/// The vault account that an administrator adjusts.
#[derive(Debug)]
pub struct UpdateVault {
    pub vault_account: VaultInfo,
}

/// New values for the vault; an absent field is left as it is.
#[derive(Debug, Clone, Copy)]
pub struct UpdateVaultArgs {
    pub stake: Option<u64>,
    pub decimals: Option<u8>,
}

/// `o`'s value when present, else `v`.
pub open spec fn or_keep<T>(o: Option<T>, v: T) -> T {
    match o {
        Some(x) => x,
        None => v,
    }
}

/// Sets the vault's reserve and scale to the values given.
pub fn update_vault(ctx: &mut UpdateVault, args: UpdateVaultArgs)
    ensures
        final(ctx).vault_account.stake == or_keep(args.stake, old(ctx).vault_account.stake),
        final(ctx).vault_account.decimals == or_keep(args.decimals, old(ctx).vault_account.decimals),
{
    if let Some(stake) = args.stake {
        ctx.vault_account.stake = stake;
    }
    if let Some(decimals) = args.decimals {
        ctx.vault_account.decimals = decimals;
    }
}

/// The configuration that an administrator updates.
#[derive(Debug)]
pub struct UpdateProgramConfig {
    pub program_config: ProgramConfig,
}

/// New values for the configuration; an absent field is left as it is.
#[derive(Debug)]
pub struct UpdateProgramConfigArgs {
    pub admin: Option<Pubkey>,
    pub feeds: Option<Vec<PriceFeedInfo>>,
    pub has_presale_ended: Option<bool>,
    pub usd_price: Option<u64>,
    pub usd_decimals: Option<u8>,
    pub collected_funds_account: Option<Pubkey>,
    pub chainlink_program: Option<Pubkey>,
    pub available_percentage: Option<u8>,
}

/// Why an update is rejected: an unlock percentage above one hundred, a
/// registry with two feeds for one asset, or reopening a closed sale.
pub open spec fn config_update_error(config: ProgramConfig, args: UpdateProgramConfigArgs) -> Option<
    PreSaleProgramError,
> {
    if args.available_percentage matches Some(p) && p > 100 {
        Some(PreSaleProgramError::InvalidUnlockPercentage)
    } else if args.feeds matches Some(f) && !feed_assets_unique(f@) {
        Some(PreSaleProgramError::DuplicateFeedAsset)
    } else if config.has_presale_ended && args.has_presale_ended == Some(false) {
        Some(PreSaleProgramError::PreSaleEnded)
    } else {
        None
    }
}

/// Replaces each configuration field that `args` gives. The unlock
/// percentage stays within one hundred, each asset keeps at most one feed,
/// and a closed sale stays closed.
pub fn update_program_config(ctx: &mut UpdateProgramConfig, args: UpdateProgramConfigArgs) -> (r:
    Result<(), PreSaleProgramError>)
    requires
        old(ctx).program_config.wf(),
    ensures
        match config_update_error(old(ctx).program_config, args) {
            Some(e) => r == Err::<(), PreSaleProgramError>(e) && *final(ctx) == *old(ctx),
            None => r is Ok,
        },
        r is Ok ==> {
            let before = old(ctx).program_config;
            let after = final(ctx).program_config;
            &&& after.admin == or_keep(args.admin, before.admin)
            &&& after.feeds@ == match args.feeds {
                Some(f) => f@,
                None => before.feeds@,
            }
            &&& after.has_presale_ended == or_keep(args.has_presale_ended, before.has_presale_ended)
            &&& after.usd_price == or_keep(args.usd_price, before.usd_price)
            &&& after.usd_decimals == or_keep(args.usd_decimals, before.usd_decimals)
            &&& after.collected_funds_account == or_keep(
                args.collected_funds_account,
                before.collected_funds_account,
            )
            &&& after.chainlink_program == or_keep(args.chainlink_program, before.chainlink_program)
            &&& after.available_percentage == or_keep(
                args.available_percentage,
                before.available_percentage,
            )
        },
        final(ctx).program_config.wf(),
        old(ctx).program_config.has_presale_ended ==> final(ctx).program_config.has_presale_ended,
{
    if let Some(p) = args.available_percentage {
        if p > 100 {
            return Err(PreSaleProgramError::InvalidUnlockPercentage);
        }
    }
    if let Some(feeds) = &args.feeds {
        if !has_unique_assets(feeds) {
            return Err(PreSaleProgramError::DuplicateFeedAsset);
        }
    }
    if ctx.program_config.has_presale_ended && args.has_presale_ended == Some(false) {
        return Err(PreSaleProgramError::PreSaleEnded);
    }
    let config = &mut ctx.program_config;
    if let Some(admin) = args.admin {
        config.admin = admin;
    }
    if let Some(feeds) = args.feeds {
        config.feeds = feeds;
    }
    if let Some(collected_funds_account) = args.collected_funds_account {
        config.collected_funds_account = collected_funds_account;
    }
    if let Some(chainlink_program) = args.chainlink_program {
        config.chainlink_program = chainlink_program;
    }
    if let Some(usd_price) = args.usd_price {
        config.usd_price = usd_price;
    }
    if let Some(usd_decimals) = args.usd_decimals {
        config.usd_decimals = usd_decimals;
    }
    if let Some(has_presale_ended) = args.has_presale_ended {
        config.has_presale_ended = has_presale_ended;
    }
    if let Some(available_percentage) = args.available_percentage {
        config.available_percentage = available_percentage;
    }
    Ok(())
}

/// The identities that a new sale is configured with.
#[derive(Debug, Clone, Copy)]
pub struct InitializeProgramConfig {
    pub signer: Pubkey,
    pub collected_funds_account: Pubkey,
    pub chainlink_program: Pubkey,
}

/// A new sale's configuration: the signer administers it, it is open, it has
/// no price, no feeds and nothing unlocked.
pub fn initialize_program_config(ctx: &InitializeProgramConfig) -> (r: ProgramConfig)
    ensures
        r.admin == ctx.signer,
        r.collected_funds_account == ctx.collected_funds_account,
        r.chainlink_program == ctx.chainlink_program,
        !r.has_presale_ended,
        r.usd_price == 0,
        r.usd_decimals == 0,
        r.feeds@.len() == 0,
        r.available_percentage == 0,
        r.wf(),
{
    ProgramConfig {
        admin: ctx.signer,
        collected_funds_account: ctx.collected_funds_account,
        chainlink_program: ctx.chainlink_program,
        has_presale_ended: false,
        usd_price: 0,
        usd_decimals: 0,
        feeds: Vec::new(),
        available_percentage: 0,
    }
}

/// A purchase never succeeds with nothing credited: whenever the sale is
/// open and the accounts check out, a payment whose converted amount
/// truncates to zero is rejected as below the minimal value.
pub proof fn lemma_dust_rejected(ctx: BuyTokens, amount: u64, round: DataFeed)
    ensures
        purchase_outcome(ctx, amount, round) != Ok::<u64, PreSaleProgramError>(0),
        ({
            let config = ctx.program_config;
            &&& !config.has_presale_ended
            &&& amount > 0
            &&& feed_registered(config.feeds@, ctx.payer_mint, ctx.chainlink_feed)
            &&& ctx.chainlink_program == config.chainlink_program
            &&& ctx.collected_funds_account == config.collected_funds_account
            &&& token_amount(
                config.usd_price,
                config.usd_decimals,
                amount,
                ctx.payer_mint_decimals,
                ctx.vault_account.decimals,
                round,
            ) == Ok::<u64, PreSaleProgramError>(0)
        }) ==> purchase_outcome(ctx, amount, round) == Err::<u64, PreSaleProgramError>(
            PreSaleProgramError::BelowMinimalValue,
        ),
{
}

/// A purchase after the sale has closed is always rejected as ended; a
/// claim before it has closed is always rejected as still on.
pub proof fn lemma_sale_state_gates(
    buy: BuyTokens,
    amount: u64,
    round: DataFeed,
    config: ProgramConfig,
    user: UserInfo,
)
    ensures
        buy.program_config.has_presale_ended ==> purchase_outcome(buy, amount, round) == Err::<
            u64,
            PreSaleProgramError,
        >(PreSaleProgramError::PreSaleEnded),
        !config.has_presale_ended ==> claim_outcome(config, user) == Err::<
            u64,
            PreSaleProgramError,
        >(PreSaleProgramError::PreSaleStillOn),
{
}

/// A purchase credits exactly what the price query quotes for the same
/// payment and reading.
pub proof fn lemma_purchase_matches_quote(ctx: BuyTokens, amount: u64, round: DataFeed)
    requires
        purchase_outcome(ctx, amount, round) is Ok,
    ensures
        token_amount(
            ctx.program_config.usd_price,
            ctx.program_config.usd_decimals,
            amount,
            ctx.payer_mint_decimals,
            ctx.vault_account.decimals,
            round,
        ) == purchase_outcome(ctx, amount, round),
{
}

} // verus!
