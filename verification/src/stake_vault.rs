use vstd::prelude::*;
use crate::common::{Address, ContractError, Hash32, Invocation, Party, same_address};
use crate::table::Table;

verus! {

/// Storage schema version of this contract.
pub const VERSION: u32 = 1;

/// Multiplier, in basis points of one hundred, for a stake of at least
/// `TIER_HIGH_STAKE_BOUND` (2.0x).
pub const STAKE_TIER_HIGH_BPS: u32 = 200;

/// Multiplier for a stake of at least `TIER_LOW_STAKE_BOUND` (1.2x).
pub const STAKE_TIER_LOW_BPS: u32 = 120;

/// Multiplier for a smaller stake or none (1.0x).
pub const STAKE_TIER_NONE_BPS: u32 = 100;

/// Smallest stake of the high tier.
pub const TIER_HIGH_STAKE_BOUND: i128 = 500;

/// Smallest stake of the low tier.
pub const TIER_LOW_STAKE_BOUND: i128 = 100;

/// How long a stake stays locked after its last top-up: one week.
pub const DEFAULT_LOCK_PERIOD_SECONDS: u64 = 604800;

/// A user's stake as stored under `UserStake(user)`.
#[derive(Clone, Copy, Debug, PartialEq, Eq)]
pub struct StakeInfo {
    pub amount: i128,
    pub lock_timestamp: u64,
}

// ── Events ──────────────────────────────────────────────────────────────────

#[derive(Clone, Copy, Debug, PartialEq, Eq)]
pub struct StakeVaultInitialized {
    pub admin: Address,
    pub token: Address,
}

#[derive(Clone, Copy, Debug, PartialEq, Eq)]
pub struct Staked {
    pub user: Address,
    pub amount: i128,
    pub total_staked: i128,
    pub lock_timestamp: u64,
}

#[derive(Clone, Copy, Debug, PartialEq, Eq)]
pub struct Unstaked {
    pub user: Address,
    pub amount: i128,
}

#[derive(Clone, Copy, Debug, PartialEq, Eq)]
pub struct ContractUpgraded {
    pub admin: Address,
    pub new_wasm_hash: Hash32,
}

/// The events this contract publishes.
#[derive(Clone, Copy, Debug, PartialEq, Eq)]
pub enum Event {
    StakeVaultInitialized(StakeVaultInitialized),
    Staked(Staked),
    Unstaked(Unstaked),
    ContractUpgraded(ContractUpgraded),
}

/// Outside work that an accepted call asks of the host, in order.
#[derive(Clone, Copy, Debug, PartialEq, Eq)]
pub enum Effect {
    /// Move `amount` of the staked token from `from` to `to`.
    Transfer { token: Address, from: Party, to: Party, amount: i128 },
    /// Replace this contract's code.
    UpdateWasm { new_wasm_hash: Hash32 },
    /// Publish an event.
    Emit(Event),
}

/// The multiplier a stake of `amount` earns.
pub open spec fn tier_multiplier(amount: int) -> u32 {
    if amount >= TIER_HIGH_STAKE_BOUND {
        STAKE_TIER_HIGH_BPS
    } else if amount >= TIER_LOW_STAKE_BOUND {
        STAKE_TIER_LOW_BPS
    } else {
        STAKE_TIER_NONE_BPS
    }
}

// ── Contract storage ────────────────────────────────────────────────────────

/// The stake vault's storage: its admin and token and each user's locked
/// stake.
pub struct StakeVault {
    pub admin: Option<Address>,
    pub token: Option<Address>,
    pub stakes: Table<Address, StakeInfo>,
    pub version: u32,
}

/// The stake vault's storage as mathematical values.
pub struct VaultState {
    pub admin: Option<Address>,
    pub token: Option<Address>,
    pub stakes: Map<Address, StakeInfo>,
    pub version: u32,
}

impl View for StakeVault {
    type V = VaultState;

    open spec fn view(&self) -> VaultState {
        VaultState { admin: self.admin, token: self.token, stakes: self.stakes@, version: self.version }
    }
}

impl VaultState {
    /// The amount a user has staked: 0 when nothing is recorded.
    pub open spec fn staked(self, user: Address) -> int {
        if self.stakes.contains_key(user) { self.stakes[user].amount as int } else { 0 }
    }

    /// The storage after `user` stakes `amount` more at time `now`.
    pub open spec fn after_stake(self, user: Address, amount: i128, now: u64) -> VaultState {
        VaultState {
            stakes: self.stakes.insert(user, StakeInfo { amount: (self.staked(user) + amount) as i128, lock_timestamp: now }),
            ..self
        }
    }

    /// The storage after `user` withdraws its stake.
    pub open spec fn after_unstake(self, user: Address) -> VaultState {
        VaultState { stakes: self.stakes.remove(user), ..self }
    }

    /// Which check refuses an admin-only call, if any.
    pub open spec fn admin_error(self, inv: &Invocation, admin: Address) -> Option<ContractError> {
        if !inv.authorizes(admin) {
            Some(ContractError::AuthorizationMissing)
        } else if self.admin is None {
            Some(ContractError::NotInitialized)
        } else if self.admin != Some(admin) {
            Some(ContractError::Unauthorized)
        } else {
            None
        }
    }

    /// Which check refuses `stake`, if any.
    pub open spec fn stake_error(self, inv: &Invocation, user: Address, amount: i128) -> Option<ContractError> {
        if !inv.authorizes(user) {
            Some(ContractError::AuthorizationMissing)
        } else if amount <= 0 {
            Some(ContractError::AmountNotPositive)
        } else if self.token is None {
            Some(ContractError::NotInitialized)
        } else if self.staked(user) + amount > i128::MAX {
            Some(ContractError::ArithmeticOverflow)
        } else {
            None
        }
    }

    /// Which check refuses `unstake`, if any.
    pub open spec fn unstake_error(self, inv: &Invocation, user: Address) -> Option<ContractError> {
        if !inv.authorizes(user) {
            Some(ContractError::AuthorizationMissing)
        } else if !self.stakes.contains_key(user) {
            Some(ContractError::NoStakeFound)
        } else if self.stakes[user].lock_timestamp + DEFAULT_LOCK_PERIOD_SECONDS > u64::MAX {
            Some(ContractError::ArithmeticOverflow)
        } else if inv.now < self.stakes[user].lock_timestamp + DEFAULT_LOCK_PERIOD_SECONDS {
            Some(ContractError::LockPeriodActive)
        } else if self.token is None {
            Some(ContractError::NotInitialized)
        } else {
            None
        }
    }
}

impl StakeVault {
    /// A contract with empty storage, as deployed.
    pub fn new() -> (c: StakeVault)
        ensures
            c@.admin is None && c@.token is None && c@.version == 0,
            c@.stakes == Map::<Address, StakeInfo>::empty(),
    {
        StakeVault { admin: None, token: None, stakes: Table::new(), version: 0 }
    }

    fn check_admin(&self, inv: &Invocation, admin: &Address) -> (r: Result<(), ContractError>)
        ensures
            match self@.admin_error(inv, *admin) {
                Some(e) => r == Err::<(), ContractError>(e),
                None => r is Ok,
            },
    {
        if !inv.require_auth(admin) {
            return Err(ContractError::AuthorizationMissing);
        }
        match self.admin {
            None => Err(ContractError::NotInitialized),
            Some(stored) => if same_address(admin, &stored) { Ok(()) } else { Err(ContractError::Unauthorized) },
        }
    }

    /// Records the admin and the staked token. Refused when already
    /// initialized.
    pub fn initialize(&mut self, inv: &Invocation, admin: Address, token: Address) -> (r: Result<Vec<Effect>, ContractError>)
        ensures
            old(self)@.admin is Some
                ==> r == Err::<Vec<Effect>, ContractError>(ContractError::AlreadyInitialized) && final(self)@ == old(self)@,
            old(self)@.admin is None && !inv.authorizes(admin)
                ==> r == Err::<Vec<Effect>, ContractError>(ContractError::AuthorizationMissing) && final(self)@ == old(self)@,
            old(self)@.admin is None && inv.authorizes(admin) ==> {
                &&& r is Ok
                &&& final(self)@ == (VaultState { admin: Some(admin), token: Some(token), ..old(self)@ })
                &&& r->Ok_0@ == seq![Effect::Emit(Event::StakeVaultInitialized(StakeVaultInitialized { admin, token }))]
            },
    {
        if self.admin.is_some() {
            return Err(ContractError::AlreadyInitialized);
        }
        if !inv.require_auth(&admin) {
            return Err(ContractError::AuthorizationMissing);
        }
        self.admin = Some(admin);
        self.token = Some(token);
        Ok(vec![Effect::Emit(Event::StakeVaultInitialized(StakeVaultInitialized { admin, token }))])
    }

    /// Locks `amount` more of the token for `user`. Stakes accumulate, and
    /// the lock restarts at the current ledger time.
    pub fn stake(&mut self, inv: &Invocation, user: Address, amount: i128) -> (r: Result<Vec<Effect>, ContractError>)
        ensures
            match old(self)@.stake_error(inv, user, amount) {
                Some(e) => r == Err::<Vec<Effect>, ContractError>(e) && final(self)@ == old(self)@,
                None => {
                    let total = (old(self)@.staked(user) + amount) as i128;
                    &&& r is Ok
                    &&& final(self)@ == old(self)@.after_stake(user, amount, inv.now)
                    &&& r->Ok_0@ == seq![
                        Effect::Transfer { token: old(self)@.token->Some_0, from: Party::Other(user), to: Party::ThisContract, amount },
                        Effect::Emit(Event::Staked(Staked { user, amount, total_staked: total, lock_timestamp: inv.now })),
                    ]
                },
            },
    {
        if !inv.require_auth(&user) {
            return Err(ContractError::AuthorizationMissing);
        }
        if amount <= 0 {
            return Err(ContractError::AmountNotPositive);
        }
        let token = match self.token {
            Some(t) => t,
            None => return Err(ContractError::NotInitialized),
        };
        let now = inv.now;
        let mut info = match self.stakes.get(&user) {
            Some(s) => *s,
            None => StakeInfo { amount: 0, lock_timestamp: now },
        };
        info.amount = match info.amount.checked_add(amount) {
            Some(total) => total,
            None => return Err(ContractError::ArithmeticOverflow),
        };
        info.lock_timestamp = now;
        self.stakes.insert(user, info);
        Ok(vec![
            Effect::Transfer { token, from: Party::Other(user), to: Party::ThisContract, amount },
            Effect::Emit(Event::Staked(Staked { user, amount, total_staked: info.amount, lock_timestamp: now })),
        ])
    }

    /// Returns a user's whole stake once the lock period since the last
    /// top-up has passed, and clears the record.
    pub fn unstake(&mut self, inv: &Invocation, user: Address) -> (r: Result<Vec<Effect>, ContractError>)
        ensures
            match old(self)@.unstake_error(inv, user) {
                Some(e) => r == Err::<Vec<Effect>, ContractError>(e) && final(self)@ == old(self)@,
                None => {
                    let amount = old(self)@.stakes[user].amount;
                    &&& r is Ok
                    &&& final(self)@ == old(self)@.after_unstake(user)
                    &&& r->Ok_0@ == seq![
                        Effect::Transfer { token: old(self)@.token->Some_0, from: Party::ThisContract, to: Party::Other(user), amount },
                        Effect::Emit(Event::Unstaked(Unstaked { user, amount })),
                    ]
                },
            },
    {
        if !inv.require_auth(&user) {
            return Err(ContractError::AuthorizationMissing);
        }
        let info = match self.stakes.get(&user) {
            Some(s) => *s,
            None => return Err(ContractError::NoStakeFound),
        };
        let unlock_at = match info.lock_timestamp.checked_add(DEFAULT_LOCK_PERIOD_SECONDS) {
            Some(t) => t,
            None => return Err(ContractError::ArithmeticOverflow),
        };
        if inv.now < unlock_at {
            return Err(ContractError::LockPeriodActive);
        }
        let token = match self.token {
            Some(t) => t,
            None => return Err(ContractError::NotInitialized),
        };
        self.stakes.remove(&user);
        Ok(vec![
            Effect::Transfer { token, from: Party::ThisContract, to: Party::Other(user), amount: info.amount },
            Effect::Emit(Event::Unstaked(Unstaked { user, amount: info.amount })),
        ])
    }

    /// The payout multiplier a user's stake earns, in basis points of one
    /// hundred: 200 from a stake of 500, 120 from 100, else 100.
    pub fn get_multiplier(&self, user: Address) -> (m: u32)
        ensures
            m == tier_multiplier(self@.staked(user)),
    {
        let amount = match self.stakes.get(&user) {
            Some(s) => s.amount,
            None => 0,
        };
        if amount >= TIER_HIGH_STAKE_BOUND {
            STAKE_TIER_HIGH_BPS
        } else if amount >= TIER_LOW_STAKE_BOUND {
            STAKE_TIER_LOW_BPS
        } else {
            STAKE_TIER_NONE_BPS
        }
    }

    /// Replaces this contract's code. Admin only; `migrate` must follow.
    pub fn upgrade_contract(&self, inv: &Invocation, admin: Address, new_wasm_hash: Hash32) -> (r: Result<Vec<Effect>, ContractError>)
        ensures
            match self@.admin_error(inv, admin) {
                Some(e) => r == Err::<Vec<Effect>, ContractError>(e),
                None => r is Ok && r->Ok_0@ == seq![
                    Effect::UpdateWasm { new_wasm_hash },
                    Effect::Emit(Event::ContractUpgraded(ContractUpgraded { admin, new_wasm_hash })),
                ],
            },
    {
        self.check_admin(inv, &admin)?;
        Ok(vec![
            Effect::UpdateWasm { new_wasm_hash },
            Effect::Emit(Event::ContractUpgraded(ContractUpgraded { admin, new_wasm_hash })),
        ])
    }

    /// Applies pending storage migrations and records the current schema
    /// version. Admin only; refused when already at `VERSION`.
    pub fn migrate(&mut self, inv: &Invocation, admin: Address) -> (r: Result<(), ContractError>)
        ensures
            old(self)@.admin_error(inv, admin) is Some
                ==> r == Err::<(), ContractError>(old(self)@.admin_error(inv, admin)->Some_0) && final(self)@ == old(self)@,
            old(self)@.admin_error(inv, admin) is None && old(self)@.version >= VERSION
                ==> r == Err::<(), ContractError>(ContractError::AlreadyAtCurrentVersion) && final(self)@ == old(self)@,
            old(self)@.admin_error(inv, admin) is None && old(self)@.version < VERSION
                ==> r is Ok && final(self)@ == (VaultState { version: VERSION, ..old(self)@ }),
    {
        self.check_admin(inv, &admin)?;
        if self.version >= VERSION {
            return Err(ContractError::AlreadyAtCurrentVersion);
        }
        self.version = VERSION;
        Ok(())
    }

    /// The stored schema version; 0 before any migration.
    pub fn contract_version(&self) -> (v: u32)
        ensures
            v == self@.version,
    {
        self.version
    }
}


// ── Laws ────────────────────────────────────────────────────────────────────

/// The multiplier takes one of the three tier values and never decreases as
/// the stake grows.
pub proof fn law_multiplier_tiers(a: int, b: int)
    ensures
        tier_multiplier(a) == STAKE_TIER_NONE_BPS || tier_multiplier(a) == STAKE_TIER_LOW_BPS
            || tier_multiplier(a) == STAKE_TIER_HIGH_BPS,
        a <= b ==> tier_multiplier(a) <= tier_multiplier(b),
        a < TIER_LOW_STAKE_BOUND ==> tier_multiplier(a) == STAKE_TIER_NONE_BPS,
{
}

/// Stakes accumulate: two accepted stakes by a user add up, and the lock
/// restarts at the later one.
pub proof fn law_stakes_accumulate(s: VaultState, inv1: &Invocation, inv2: &Invocation, user: Address, a: i128, b: i128)
    requires
        s.stake_error(inv1, user, a) is None,
        s.after_stake(user, a, inv1.now).stake_error(inv2, user, b) is None,
    ensures
        ({
            let s2 = s.after_stake(user, a, inv1.now).after_stake(user, b, inv2.now);
            &&& s2.staked(user) == s.staked(user) + a + b
            &&& s2.stakes[user].lock_timestamp == inv2.now
        }),
{
}

/// A stake stays locked for a week after its last top-up: unstaking earlier
/// is refused.
pub proof fn law_locked_for_a_week(s: VaultState, inv: &Invocation, inv2: &Invocation, user: Address, amount: i128)
    requires
        s.stake_error(inv, user, amount) is None,
        inv2.authorizes(user),
        inv.now as int + DEFAULT_LOCK_PERIOD_SECONDS <= u64::MAX,
        inv2.now < inv.now + DEFAULT_LOCK_PERIOD_SECONDS,
    ensures
        s.after_stake(user, amount, inv.now).unstake_error(inv2, user) == Some(ContractError::LockPeriodActive),
{
}

/// Unstaking withdraws the whole stake at once: afterwards the user has
/// nothing staked, earns the base multiplier, and a second unstake is
/// refused.
pub proof fn law_unstake_clears(s: VaultState, inv: &Invocation, user: Address)
    requires
        s.unstake_error(inv, user) is None,
    ensures
        s.after_unstake(user).staked(user) == 0,
        tier_multiplier(s.after_unstake(user).staked(user)) == STAKE_TIER_NONE_BPS,
        s.after_unstake(user).unstake_error(inv, user) == Some(ContractError::NoStakeFound),
{
}

} // verus!
