//! Bootstrap planning for a test chain: the exact sequence of chain
//! commands that brings a fresh chain to a running state with funded
//! wallets. Running the commands is outside work; the plan and the
//! waiting decision are computed and checked here.

use vstd::prelude::*;
use vstd::string::StringExecFns;

verus! {

/// The amount every bootstrap account is seeded with.
pub const GENESIS_COIN_AMOUNT: u64 = 1_000_000_000_000;

/// How many times the bootstrap waits for the relayer wallet to show
/// its seeded balance.
pub const WAIT_RETRIES: u16 = 10;

/// A key-holder on the chain.
pub struct Wallet {
    pub id: String,
    pub address: String,
}

impl Wallet {
    /// An owned copy with the same views.
    pub fn dup(&self) -> (r: Wallet)
        ensures
            r.id@ == self.id@,
            r.address@ == self.address@,
    {
        Wallet { id: self.id.clone(), address: self.address.clone() }
    }
}

/// What bootstrapping a chain produces: the chain's identity and its
/// three funded wallets. The running process itself is outside work.
pub struct BootstrapResult {
    pub chain_id: String,
    pub validator: Wallet,
    pub relayer: Wallet,
    pub user: Wallet,
}

/// One command of the bootstrap sequence.
pub enum ChainAction {
    Initialize,
    AddGenesisAccount { address: String, coins: Vec<(String, u64)> },
    AddGenesisValidator { id: String, denom: String, amount: u64 },
    CollectGenTxs,
    Configure {
        log_level: String,
        rpc_port: u16,
        p2p_port: u16,
        timeout_commit_secs: u64,
        timeout_propose_secs: u64,
    },
    Start,
    WaitWalletAmount { address: String, target: u64, denom: String, retries: u16 },
}

/// A single staking seed.
pub open spec fn is_stake_coins(coins: Seq<(String, u64)>) -> bool {
    &&& coins.len() == 1
    &&& coins[0].0@ == "stake"@
    &&& coins[0].1 == GENESIS_COIN_AMOUNT
}

/// A staking seed together with the transferable seed.
pub open spec fn is_full_coins(coins: Seq<(String, u64)>) -> bool {
    &&& coins.len() == 2
    &&& coins[0].0@ == "stake"@
    &&& coins[0].1 == GENESIS_COIN_AMOUNT
    &&& coins[1].0@ == "samoleans"@
    &&& coins[1].1 == GENESIS_COIN_AMOUNT
}

/// Lays out the bootstrap of one chain: initialize, seed the
/// validator with stake and register it, seed user and relayer with
/// stake and samoleans, collect the genesis transactions, configure
/// logging, ports and one-second consensus timeouts, start, and wait
/// for the relayer wallet to show its seeded samoleans.
pub fn bootstrap_chain(
    chain_id: String,
    validator: Wallet,
    user: Wallet,
    relayer: Wallet,
    rpc_port: u16,
    p2p_port: u16,
) -> (r: (Vec<ChainAction>, BootstrapResult))
    ensures
        r.1.chain_id == chain_id,
        r.1.validator == validator,
        r.1.user == user,
        r.1.relayer == relayer,
        r.0@.len() == 9,
        r.0@[0] is Initialize,
        r.0@[1] matches ChainAction::AddGenesisAccount { address, coins } && address@
            == validator.address@ && is_stake_coins(coins@),
        r.0@[2] matches ChainAction::AddGenesisValidator { id, denom, amount } && id@
            == validator.id@ && denom@ == "stake"@ && amount == GENESIS_COIN_AMOUNT,
        r.0@[3] matches ChainAction::AddGenesisAccount { address, coins } && address@
            == user.address@ && is_full_coins(coins@),
        r.0@[4] matches ChainAction::AddGenesisAccount { address, coins } && address@
            == relayer.address@ && is_full_coins(coins@),
        r.0@[5] is CollectGenTxs,
        r.0@[6] matches ChainAction::Configure {
            log_level,
            rpc_port: rp,
            p2p_port: pp,
            timeout_commit_secs,
            timeout_propose_secs,
        } && log_level@ == "trace"@ && rp == rpc_port && pp == p2p_port && timeout_commit_secs
            == 1u64 && timeout_propose_secs == 1u64,
        r.0@[7] is Start,
        r.0@[8] matches ChainAction::WaitWalletAmount { address, target, denom, retries }
            && address@ == relayer.address@ && target == GENESIS_COIN_AMOUNT && denom@
            == "samoleans"@ && retries == WAIT_RETRIES,
{
    let mut plan: Vec<ChainAction> = Vec::new();
    plan.push(ChainAction::Initialize);

    let mut validator_coins: Vec<(String, u64)> = Vec::new();
    validator_coins.push((String::from_str("stake"), GENESIS_COIN_AMOUNT));
    plan.push(
        ChainAction::AddGenesisAccount {
            address: validator.address.clone(),
            coins: validator_coins,
        },
    );

    plan.push(
        ChainAction::AddGenesisValidator {
            id: validator.id.clone(),
            denom: String::from_str("stake"),
            amount: GENESIS_COIN_AMOUNT,
        },
    );

    let mut user_coins: Vec<(String, u64)> = Vec::new();
    user_coins.push((String::from_str("stake"), GENESIS_COIN_AMOUNT));
    user_coins.push((String::from_str("samoleans"), GENESIS_COIN_AMOUNT));
    plan.push(ChainAction::AddGenesisAccount { address: user.address.clone(), coins: user_coins });

    let mut relayer_coins: Vec<(String, u64)> = Vec::new();
    relayer_coins.push((String::from_str("stake"), GENESIS_COIN_AMOUNT));
    relayer_coins.push((String::from_str("samoleans"), GENESIS_COIN_AMOUNT));
    plan.push(
        ChainAction::AddGenesisAccount { address: relayer.address.clone(), coins: relayer_coins },
    );

    plan.push(ChainAction::CollectGenTxs);

    plan.push(
        ChainAction::Configure {
            log_level: String::from_str("trace"),
            rpc_port,
            p2p_port,
            timeout_commit_secs: 1,
            timeout_propose_secs: 1,
        },
    );

    plan.push(ChainAction::Start);

    plan.push(
        ChainAction::WaitWalletAmount {
            address: relayer.address.clone(),
            target: GENESIS_COIN_AMOUNT,
            denom: String::from_str("samoleans"),
            retries: WAIT_RETRIES,
        },
    );

    (plan, BootstrapResult { chain_id, validator, relayer, user })
}

/// What one waiting round concludes.
#[derive(Clone, Copy, Debug, PartialEq, Eq, Structural)]
pub enum WaitOutcome {
    /// The queried balance matched the target.
    Satisfied,
    /// No match yet: query again after the delay.
    Retry,
    /// The retry budget is exhausted.
    GiveUp,
}

/// Decides one round of waiting for a wallet to reach a target
/// amount: an exhausted budget gives up, a balance query matching
/// the target is satisfied, and anything else — a failed query
/// included — retries.
pub fn wait_wallet_amount_step(remaining_retry: u16, query: Option<u64>, target_amount: u64) -> (r:
    WaitOutcome)
    ensures
        remaining_retry == 0 ==> r == WaitOutcome::GiveUp,
        remaining_retry > 0 && query == Some(target_amount) ==> r == WaitOutcome::Satisfied,
        remaining_retry > 0 && query != Some(target_amount) ==> r == WaitOutcome::Retry,
{
    if remaining_retry == 0 {
        return WaitOutcome::GiveUp;
    }
    match query {
        Some(amount) => {
            if amount == target_amount {
                WaitOutcome::Satisfied
            } else {
                WaitOutcome::Retry
            }
        },
        None => WaitOutcome::Retry,
    }
}

} // verus!
