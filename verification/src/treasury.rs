use vstd::prelude::*;

use crate::account::AccountId;
use crate::errors::TreasuryError;
use crate::events::{BatchCompleted, BatchInitiated, ConfigUpdated, Deposited};
use crate::fees::lemma_mul_div_le;
use crate::state::{BatchRecord, TreasuryConfig};

verus! {

// The treasury pools fee deposits per token type in vaults held by the
// surrounding ledger. Once a vault's balance reaches the configured
// threshold, any keeper may trigger a batch: the whole balance leaves
// for the keeper in one transfer — the keeper keeps the reward slice and
// owes the rest to off-system buyback and liquidity work — and a batch
// record is opened for accountability. The keeper later reports the
// results, which are recorded as given: verifying them is outside this
// subsystem, a deliberate trust boundary.

/// A keeper's reward for triggering a batch over `balance`: the reward
/// rate applied in basis points, rounded down.
pub open spec fn keeper_reward_of(balance: u64, reward_bps: u16) -> int {
    (balance as int) * (reward_bps as int) / 10000
}

/// One-time treasury setup: records the authority, the protocol token,
/// the batch threshold and the keeper reward rate, and starts every
/// counter and lifetime total at zero.
///
/// Succeeds exactly when the reward rate is at most 500 basis points.
pub fn initialize_config(
    authority: AccountId,
    sour_mint: AccountId,
    batch_threshold: u64,
    keeper_reward_bps: u16,
) -> (r: Result<TreasuryConfig, TreasuryError>)
    ensures
        r is Ok <==> keeper_reward_bps <= 500,
        match r {
            Ok(config) => {
                &&& config == (TreasuryConfig {
                    authority,
                    sour_mint,
                    batch_threshold,
                    keeper_reward_bps,
                    total_deposited: 0,
                    total_bought_back: 0,
                    total_lp_added: 0,
                    batch_count: 0,
                })
                &&& config.well_formed()
            },
            Err(e) => e == TreasuryError::InvalidKeeperReward,
        },
{
    if keeper_reward_bps > 500 {
        return Err(TreasuryError::InvalidKeeperReward);
    }
    Ok(
        TreasuryConfig {
            authority,
            sour_mint,
            batch_threshold,
            keeper_reward_bps,
            total_deposited: 0,
            total_bought_back: 0,
            total_lp_added: 0,
            batch_count: 0,
        },
    )
}

/// Records a deposit of `amount` of some token into that token's
/// treasury vault. Any party may deposit — the escrow's release paths
/// route their treasury slice here as an ordinary deposit. The caller
/// must have moved the tokens into the vault; `vault_balance` is the
/// vault's balance with the deposit included, as the ledger reported it.
///
/// Succeeds exactly when the amount is positive and the lifetime
/// deposit total has room; the total then grows by the amount.
pub fn deposit(
    config: &mut TreasuryConfig,
    depositor: AccountId,
    mint: AccountId,
    amount: u64,
    vault_balance: u64,
) -> (r: Result<Deposited, TreasuryError>)
    requires
        old(config).well_formed(),
    ensures
        final(config).well_formed(),
        r is Ok <==> amount > 0 && old(config).total_deposited + amount <= u64::MAX,
        match r {
            Ok(ev) => {
                &&& *final(config) == (TreasuryConfig {
                    total_deposited: (old(config).total_deposited + amount) as u64,
                    ..*old(config)
                })
                &&& ev == (Deposited { mint, amount, depositor, vault_balance })
            },
            Err(e) => {
                &&& *final(config) == *old(config)
                &&& e == if amount == 0 {
                    TreasuryError::ZeroDeposit
                } else {
                    TreasuryError::Overflow
                }
            },
        },
{
    if amount == 0 {
        return Err(TreasuryError::ZeroDeposit);
    }
    let total_deposited: u64 = match config.total_deposited.checked_add(amount) {
        Some(v) => v,
        None => {
            return Err(TreasuryError::Overflow);
        },
    };
    config.total_deposited = total_deposited;
    Ok(Deposited { mint, amount, depositor, vault_balance })
}

/// A keeper triggers a batch over a token vault whose balance has
/// reached the threshold. The entire balance leaves for the keeper in
/// one transfer, which the caller must perform: the reward slice is the
/// keeper's to keep, the rest is owed to off-system execution. Returns
/// the new batch's identity and its Pending record.
///
/// Succeeds exactly when the balance has reached the threshold, the
/// reward product fits in 64 bits, and the batch counter has room; on
/// success the withdrawn amount and the reward partition the balance
/// exactly.
pub fn execute_batch(
    config: &mut TreasuryConfig,
    keeper: AccountId,
    token_mint: AccountId,
    vault_balance: u64,
    now: i64,
) -> (r: Result<(u64, BatchRecord, BatchInitiated), TreasuryError>)
    requires
        old(config).well_formed(),
    ensures
        final(config).well_formed(),
        r is Ok <==> {
            &&& vault_balance >= old(config).batch_threshold
            &&& vault_balance * old(config).keeper_reward_bps <= u64::MAX
            &&& old(config).batch_count < u64::MAX
        },
        match r {
            Ok((batch_id, batch, ev)) => {
                &&& batch_id == old(config).batch_count
                &&& batch.keeper == keeper
                &&& batch.token_mint == token_mint
                &&& batch.keeper_reward == keeper_reward_of(
                    vault_balance,
                    old(config).keeper_reward_bps,
                )
                &&& batch.amount_withdrawn == vault_balance - batch.keeper_reward
                &&& batch.initiated_at == now
                &&& batch.completed == false
                &&& batch.sour_bought_back == 0
                &&& batch.lp_tokens_added == 0
                &&& batch.amount_withdrawn + batch.keeper_reward == vault_balance
                &&& *final(config) == (TreasuryConfig {
                    batch_count: (old(config).batch_count + 1) as u64,
                    ..*old(config)
                })
                &&& ev == (BatchInitiated {
                    batch_id,
                    keeper,
                    token_mint,
                    amount: batch.amount_withdrawn,
                    keeper_reward: batch.keeper_reward,
                })
            },
            Err(e) => {
                &&& *final(config) == *old(config)
                &&& e == if vault_balance < old(config).batch_threshold {
                    TreasuryError::BelowThreshold
                } else {
                    TreasuryError::Overflow
                }
            },
        },
{
    if vault_balance < config.batch_threshold {
        return Err(TreasuryError::BelowThreshold);
    }
    let reward_product: u64 = match vault_balance.checked_mul(config.keeper_reward_bps as u64) {
        Some(v) => v,
        None => {
            return Err(TreasuryError::Overflow);
        },
    };
    let keeper_reward: u64 = reward_product / 10000;
    proof {
        lemma_mul_div_le(vault_balance as int, config.keeper_reward_bps as int, 10000);
    }
    let batch_amount: u64 = vault_balance - keeper_reward;
    let batch_id: u64 = config.batch_count;
    let next_count: u64 = match config.batch_count.checked_add(1) {
        Some(v) => v,
        None => {
            return Err(TreasuryError::Overflow);
        },
    };
    let batch = BatchRecord {
        keeper,
        token_mint,
        amount_withdrawn: batch_amount,
        keeper_reward,
        initiated_at: now,
        completed: false,
        sour_bought_back: 0,
        lp_tokens_added: 0,
    };
    config.batch_count = next_count;
    let event = BatchInitiated {
        batch_id,
        keeper,
        token_mint,
        amount: batch_amount,
        keeper_reward,
    };
    Ok((batch_id, batch, event))
}

/// The keeper who triggered a batch reports its results: how much of
/// the protocol token the batch bought back and how many liquidity
/// tokens it added. The figures are keeper-reported and stored as
/// given. The record moves to completed exactly once.
///
/// Succeeds exactly when the caller is the recorded keeper, the record
/// is not yet completed, and the lifetime totals have room; an already
/// completed record always refuses and nothing stored changes.
pub fn complete_batch(
    config: &mut TreasuryConfig,
    batch: &mut BatchRecord,
    keeper: AccountId,
    batch_id: u64,
    sour_bought_back: u64,
    lp_tokens_added: u64,
) -> (r: Result<BatchCompleted, TreasuryError>)
    requires
        old(config).well_formed(),
    ensures
        final(config).well_formed(),
        r is Ok <==> {
            &&& keeper == old(batch).keeper
            &&& !old(batch).completed
            &&& old(config).total_bought_back + sour_bought_back <= u64::MAX
            &&& old(config).total_lp_added + lp_tokens_added <= u64::MAX
        },
        old(batch).completed ==> r is Err,
        match r {
            Ok(ev) => {
                &&& *final(batch) == (BatchRecord {
                    completed: true,
                    sour_bought_back,
                    lp_tokens_added,
                    ..*old(batch)
                })
                &&& *final(config) == (TreasuryConfig {
                    total_bought_back: (old(config).total_bought_back + sour_bought_back) as u64,
                    total_lp_added: (old(config).total_lp_added + lp_tokens_added) as u64,
                    ..*old(config)
                })
                &&& ev == (BatchCompleted { batch_id, sour_bought_back, lp_tokens_added })
            },
            Err(e) => {
                &&& *final(batch) == *old(batch)
                &&& *final(config) == *old(config)
                &&& e == if keeper != old(batch).keeper {
                    TreasuryError::NotKeeper
                } else if old(batch).completed {
                    TreasuryError::BatchAlreadyCompleted
                } else {
                    TreasuryError::Overflow
                }
            },
        },
{
    if keeper != batch.keeper {
        return Err(TreasuryError::NotKeeper);
    }
    if batch.completed {
        return Err(TreasuryError::BatchAlreadyCompleted);
    }
    let total_bought_back: u64 = match config.total_bought_back.checked_add(sour_bought_back) {
        Some(v) => v,
        None => {
            return Err(TreasuryError::Overflow);
        },
    };
    let total_lp_added: u64 = match config.total_lp_added.checked_add(lp_tokens_added) {
        Some(v) => v,
        None => {
            return Err(TreasuryError::Overflow);
        },
    };
    batch.completed = true;
    batch.sour_bought_back = sour_bought_back;
    batch.lp_tokens_added = lp_tokens_added;
    config.total_bought_back = total_bought_back;
    config.total_lp_added = total_lp_added;
    Ok(BatchCompleted { batch_id, sour_bought_back, lp_tokens_added })
}

/// The authority adjusts the treasury parameters. Each supplied field
/// overwrites the configuration independently; an omitted field stays
/// untouched. Succeeds exactly when the caller is the authority and any
/// supplied reward rate is at most 500 basis points; on failure nothing
/// changes, even if the other field was valid.
pub fn update_config(
    config: &mut TreasuryConfig,
    caller: AccountId,
    new_batch_threshold: Option<u64>,
    new_keeper_reward_bps: Option<u16>,
) -> (r: Result<ConfigUpdated, TreasuryError>)
    requires
        old(config).well_formed(),
    ensures
        final(config).well_formed(),
        r is Ok <==> {
            &&& caller == old(config).authority
            &&& (new_keeper_reward_bps is Some ==> new_keeper_reward_bps->0 <= 500)
        },
        match r {
            Ok(ev) => {
                &&& *final(config) == (TreasuryConfig {
                    batch_threshold: match new_batch_threshold {
                        Some(t) => t,
                        None => old(config).batch_threshold,
                    },
                    keeper_reward_bps: match new_keeper_reward_bps {
                        Some(b) => b,
                        None => old(config).keeper_reward_bps,
                    },
                    ..*old(config)
                })
                &&& ev == (ConfigUpdated {
                    authority: old(config).authority,
                    batch_threshold: final(config).batch_threshold,
                    keeper_reward_bps: final(config).keeper_reward_bps,
                })
            },
            Err(e) => {
                &&& *final(config) == *old(config)
                &&& e == if caller != old(config).authority {
                    TreasuryError::NotAuthority
                } else {
                    TreasuryError::InvalidKeeperReward
                }
            },
        },
{
    if caller != config.authority {
        return Err(TreasuryError::NotAuthority);
    }
    let keeper_reward_bps: u16 = match new_keeper_reward_bps {
        Some(bps) => {
            if bps > 500 {
                return Err(TreasuryError::InvalidKeeperReward);
            }
            bps
        },
        None => config.keeper_reward_bps,
    };
    let batch_threshold: u64 = match new_batch_threshold {
        Some(t) => t,
        None => config.batch_threshold,
    };
    config.batch_threshold = batch_threshold;
    config.keeper_reward_bps = keeper_reward_bps;
    Ok(
        ConfigUpdated {
            authority: config.authority,
            batch_threshold: config.batch_threshold,
            keeper_reward_bps: config.keeper_reward_bps,
        },
    )
}

} // verus!
