//! Faucet engine: a rate-limited token dispenser with a shared pool and
//! per-identity cooldown tracking.
//!
//! The mint, metadata and account plumbing of the host runtime stay
//! outside; the engine owns the configuration record, the per-identity
//! request records, and the accounting over the pool balance that the
//! caller hands in.

use vstd::prelude::*;
use vstd::string::StringSliceAdditionalSpecFns;
use crate::errors::FaucetError;
use crate::state::AccountId;
use crate::state::Faucet;
use crate::state::UserRequestRecord;

verus! {

/// Tokens one request may ask for at most: 1000 tokens with six decimals.
pub const DEFAULT_RATE_LIMIT: u64 = 1000 * 1000000;

/// Seconds between two requests by one identity: 24 hours.
pub const DEFAULT_COOLDOWN_PERIOD: i64 = 86400;

/// Longest accepted token name, in bytes.
pub const MAX_NAME_LEN: usize = 32;

/// Longest accepted token symbol, in bytes.
pub const MAX_SYMBOL_LEN: usize = 10;

/// Longest accepted metadata uri, in bytes.
pub const MAX_URI_LEN: usize = 200;

/// Longest accepted faucet seed, in bytes.
pub const MAX_SEED_LEN: usize = 32;

/// Create the faucet record and fill its pool with the initial supply.
///
/// The name, symbol, uri and seed strings must stay within their fixed
/// maximum byte lengths; the rate limit and the cooldown period are fixed
/// at creation to the engine defaults.  `pool_balance` is the freshly
/// opened pool account, so it starts at zero; the initial supply is minted
/// into it.
pub fn initialize_faucet(
    faucet_seed: &str,
    name: &str,
    symbol: &str,
    uri: &str,
    initial_supply: u64,
    mint: AccountId,
    faucet_authority: AccountId,
    pool_account: AccountId,
    pool_balance: &mut u64,
) -> (result: Result<Faucet, FaucetError>)
    requires
        *old(pool_balance) == 0,
    ensures
        ({
            if name.spec_bytes().len() > MAX_NAME_LEN || symbol.spec_bytes().len() > MAX_SYMBOL_LEN
                || uri.spec_bytes().len() > MAX_URI_LEN || faucet_seed.spec_bytes().len()
                > MAX_SEED_LEN {
                &&& result == Err::<Faucet, FaucetError>(FaucetError::DescriptionTooLong)
                &&& *final(pool_balance) == *old(pool_balance)
            } else {
                &&& result == Ok::<Faucet, FaucetError>(
                    Faucet {
                        mint,
                        authority: faucet_authority,
                        token_account: pool_account,
                        rate_limit: DEFAULT_RATE_LIMIT,
                        cooldown_period: DEFAULT_COOLDOWN_PERIOD,
                    },
                )
                &&& (result matches Ok(f) ==> f.wf())
                &&& *final(pool_balance) == initial_supply
            }
        }),
{
    if name.as_bytes().len() > MAX_NAME_LEN {
        return Err(FaucetError::DescriptionTooLong);
    }
    if symbol.as_bytes().len() > MAX_SYMBOL_LEN {
        return Err(FaucetError::DescriptionTooLong);
    }
    if uri.as_bytes().len() > MAX_URI_LEN {
        return Err(FaucetError::DescriptionTooLong);
    }
    if faucet_seed.as_bytes().len() > MAX_SEED_LEN {
        return Err(FaucetError::DescriptionTooLong);
    }
    *pool_balance = initial_supply;
    Ok(
        Faucet {
            mint,
            authority: faucet_authority,
            token_account: pool_account,
            rate_limit: DEFAULT_RATE_LIMIT,
            cooldown_period: DEFAULT_COOLDOWN_PERIOD,
        },
    )
}

/// Grant `amount` tokens to `user` from the pool, subject to the
/// per-request cap, the pool balance and the per-identity cooldown.
///
/// `record` is the identity's request record; a fresh record with
/// `last_request == 0` stands for "never requested".  On success the
/// amount moves from the pool to the user, the record accumulates with
/// overflow-checked arithmetic and `last_request` becomes `now`.  Every
/// check runs before the first mutation: a rejected request leaves the
/// record and both balances untouched.
pub fn request_tokens(
    faucet: &Faucet,
    record: &mut UserRequestRecord,
    user: AccountId,
    amount: u64,
    now: i64,
    pool_balance: &mut u64,
    user_balance: &mut u64,
) -> (result: Result<(), FaucetError>)
    requires
        faucet.wf(),
        old(record).wf(),
        now >= 0,
    ensures
        ({
            let r = *old(record);
            if amount == 0 {
                &&& result == Err::<(), FaucetError>(FaucetError::InvalidRequestAmount)
                &&& *final(record) == r
                &&& *final(pool_balance) == *old(pool_balance)
                &&& *final(user_balance) == *old(user_balance)
            } else if amount > faucet.rate_limit {
                &&& result == Err::<(), FaucetError>(FaucetError::RequestAmountTooHigh)
                &&& *final(record) == r
                &&& *final(pool_balance) == *old(pool_balance)
                &&& *final(user_balance) == *old(user_balance)
            } else if *old(pool_balance) < amount {
                &&& result == Err::<(), FaucetError>(FaucetError::InsufficientFaucetBalance)
                &&& *final(record) == r
                &&& *final(pool_balance) == *old(pool_balance)
                &&& *final(user_balance) == *old(user_balance)
            } else if r.last_request > 0 && now - r.last_request < faucet.cooldown_period {
                &&& result == Err::<(), FaucetError>(FaucetError::CooldownNotMet)
                &&& *final(record) == r
                &&& *final(pool_balance) == *old(pool_balance)
                &&& *final(user_balance) == *old(user_balance)
            } else if r.total_received + amount > u64::MAX || r.request_count + 1 > u32::MAX || *old(
                user_balance,
            ) + amount > u64::MAX {
                &&& result == Err::<(), FaucetError>(FaucetError::ArithmeticOverflow)
                &&& *final(record) == r
                &&& *final(pool_balance) == *old(pool_balance)
                &&& *final(user_balance) == *old(user_balance)
            } else {
                &&& result is Ok
                &&& *final(record) == (UserRequestRecord {
                    user,
                    last_request: now,
                    total_received: (r.total_received + amount) as u64,
                    request_count: (r.request_count + 1) as u32,
                })
                &&& final(record).wf()
                &&& final(record).total_received >= r.total_received
                &&& final(record).request_count > r.request_count
                &&& *final(pool_balance) == *old(pool_balance) - amount
                &&& *final(user_balance) == *old(user_balance) + amount
            }
        }),
{
    if amount == 0 {
        return Err(FaucetError::InvalidRequestAmount);
    }
    if amount > faucet.rate_limit {
        return Err(FaucetError::RequestAmountTooHigh);
    }
    if *pool_balance < amount {
        return Err(FaucetError::InsufficientFaucetBalance);
    }
    if record.last_request > 0 && now - record.last_request < faucet.cooldown_period {
        return Err(FaucetError::CooldownNotMet);
    }
    let total_after = match record.total_received.checked_add(amount) {
        Some(v) => v,
        None => {
            return Err(FaucetError::ArithmeticOverflow);
        },
    };
    let count_after = match record.request_count.checked_add(1) {
        Some(v) => v,
        None => {
            return Err(FaucetError::ArithmeticOverflow);
        },
    };
    let user_after = match user_balance.checked_add(amount) {
        Some(v) => v,
        None => {
            return Err(FaucetError::ArithmeticOverflow);
        },
    };
    *pool_balance = *pool_balance - amount;
    *user_balance = user_after;
    record.user = user;
    record.last_request = now;
    record.total_received = total_after;
    record.request_count = count_after;
    Ok(())
}

/// Tear the faucet down.  Allowed only once the pool is empty; the host
/// then closes the pool account and the mint, refunding their storage cost.
pub fn delete_faucet(faucet: &Faucet, pool_balance: u64) -> (result: Result<(), FaucetError>)
    ensures
        pool_balance == 0 ==> result is Ok,
        pool_balance != 0 ==> result == Err::<(), FaucetError>(FaucetError::FaucetNotEmpty),
{
    if pool_balance != 0 {
        return Err(FaucetError::FaucetNotEmpty);
    }
    Ok(())
}

/// Burn whatever the pool still holds — irrecoverably — so the faucet can
/// be torn down; returns the burned amount.  The pool ends empty.
pub fn burn_and_delete_faucet(faucet: &Faucet, pool_balance: &mut u64) -> (burned: u64)
    ensures
        burned == *old(pool_balance),
        *final(pool_balance) == 0,
{
    let burned = *pool_balance;
    *pool_balance = 0;
    burned
}

} // verus!
