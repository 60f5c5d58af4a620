use vstd::prelude::*;
use crate::common::{Address, ContractError, Hash32, Invocation, Party, same_address};
use crate::table::Table;

verus! {

/// Storage schema version of this contract.
pub const VERSION: u32 = 1;

/// Decimals of the reward token.
pub const REWARD_TOKEN_DECIMALS: u32 = 7;

/// Number of spenders named as the whitelist's budget.
pub const MAX_SPENDERS: u32 = 256;

/// Smallest payout.
pub const MIN_PAYOUT_AMOUNT: i128 = 1;

/// Platform fee in basis points.
pub const PLATFORM_FEE_BASIS_POINTS: u32 = 1500;

// ── Events ──────────────────────────────────────────────────────────────────

#[derive(Clone, Copy, Debug, PartialEq, Eq)]
pub struct PoolInitialized {
    pub admin: Address,
    pub token: Address,
}

#[derive(Clone, Copy, Debug, PartialEq, Eq)]
pub struct SpenderAdded {
    pub spender: Address,
}

#[derive(Clone, Copy, Debug, PartialEq, Eq)]
pub struct SpenderRemoved {
    pub spender: Address,
}

#[derive(Clone, Copy, Debug, PartialEq, Eq)]
pub struct RewardDistributed {
    pub caller: Address,
    pub learner: Address,
    pub amount: i128,
}

#[derive(Clone, Copy, Debug, PartialEq, Eq)]
pub struct PoolFunded {
    pub donor: Address,
    pub amount: i128,
}

#[derive(Clone, Copy, Debug, PartialEq, Eq)]
pub struct EmergencySweep {
    pub admin: Address,
    pub recovery_wallet: Address,
    pub amount: i128,
}

#[derive(Clone, Copy, Debug, PartialEq, Eq)]
pub struct ContractUpgraded {
    pub admin: Address,
    pub new_wasm_hash: Hash32,
}

/// The events this contract publishes.
#[derive(Clone, Copy, Debug, PartialEq, Eq)]
pub enum Event {
    PoolInitialized(PoolInitialized),
    SpenderAdded(SpenderAdded),
    SpenderRemoved(SpenderRemoved),
    RewardDistributed(RewardDistributed),
    PoolFunded(PoolFunded),
    EmergencySweep(EmergencySweep),
    ContractUpgraded(ContractUpgraded),
}

/// Outside work that an accepted call asks of the host, in order.
#[derive(Clone, Copy, Debug, PartialEq, Eq)]
pub enum Effect {
    /// Move `amount` of the reward token from `from` to `to`.
    Transfer { token: Address, from: Party, to: Party, amount: i128 },
    /// Replace this contract's code.
    UpdateWasm { new_wasm_hash: Hash32 },
    /// Publish an event.
    Emit(Event),
}

// ── Contract storage ────────────────────────────────────────────────────────

/// The reward pool's storage: its admin and token, the whitelist of
/// contracts allowed to pay rewards out of it, a count of that whitelist,
/// and the pause switch.
pub struct RewardPool {
    pub admin: Option<Address>,
    pub token: Option<Address>,
    pub spenders: Table<Address, bool>,
    pub spender_count: u32,
    pub is_paused: bool,
    pub version: u32,
}

/// The reward pool's storage as mathematical values.
pub struct PoolState {
    pub admin: Option<Address>,
    pub token: Option<Address>,
    pub spenders: Map<Address, bool>,
    pub spender_count: u32,
    pub is_paused: bool,
    pub version: u32,
}

impl View for RewardPool {
    type V = PoolState;

    open spec fn view(&self) -> PoolState {
        PoolState {
            admin: self.admin,
            token: self.token,
            spenders: self.spenders@,
            spender_count: self.spender_count,
            is_paused: self.is_paused,
            version: self.version,
        }
    }
}

impl PoolState {
    /// Whether `a` may pay rewards out of the pool.
    pub open spec fn is_spender(self, a: Address) -> bool {
        self.spenders.contains_key(a) && self.spenders[a]
    }

    /// The storage after `spender` is whitelisted; the count grows only for a
    /// new spender.
    pub open spec fn after_add(self, spender: Address) -> PoolState {
        PoolState {
            spenders: self.spenders.insert(spender, true),
            spender_count: if self.spenders.contains_key(spender) {
                self.spender_count
            } else {
                (self.spender_count + 1) as u32
            },
            ..self
        }
    }

    /// The storage after `spender` leaves the whitelist; the count shrinks
    /// by one, never below zero.
    pub open spec fn after_remove(self, spender: Address) -> PoolState {
        PoolState {
            spenders: self.spenders.remove(spender),
            spender_count: if self.spender_count > 0 { (self.spender_count - 1) as u32 } else { 0 },
            ..self
        }
    }

    /// Which check refuses an admin-only call that looks up the admin before
    /// asking for its authorization.
    pub open spec fn admin_first_error(self, inv: &Invocation, admin: Address) -> Option<ContractError> {
        if self.admin is None {
            Some(ContractError::NotInitialized)
        } else if self.admin != Some(admin) {
            Some(ContractError::Unauthorized)
        } else if !inv.authorizes(admin) {
            Some(ContractError::AuthorizationMissing)
        } else {
            None
        }
    }

    /// Which check refuses an admin-only call that asks for authorization
    /// before looking up the admin.
    pub open spec fn auth_first_error(self, inv: &Invocation, admin: Address) -> Option<ContractError> {
        if !inv.authorizes(admin) {
            Some(ContractError::AuthorizationMissing)
        } else if self.admin is None {
            Some(ContractError::NotInitialized)
        } else if self.admin != Some(admin) {
            Some(ContractError::Unauthorized)
        } else {
            None
        }
    }

    /// Which check refuses `add_approved_spender`, if any.
    pub open spec fn add_error(self, inv: &Invocation, admin: Address, spender: Address) -> Option<ContractError> {
        if self.admin_first_error(inv, admin) is Some {
            self.admin_first_error(inv, admin)
        } else if !self.spenders.contains_key(spender) && self.spender_count == u32::MAX {
            Some(ContractError::ArithmeticOverflow)
        } else {
            None
        }
    }

    /// Which check refuses `remove_approved_spender`, if any.
    pub open spec fn remove_error(self, inv: &Invocation, admin: Address, spender: Address) -> Option<ContractError> {
        if self.admin_first_error(inv, admin) is Some {
            self.admin_first_error(inv, admin)
        } else if !self.spenders.contains_key(spender) {
            Some(ContractError::SpenderNotFound)
        } else {
            None
        }
    }

    /// Which check refuses `distribute_reward`, if any.
    pub open spec fn distribute_error(self, inv: &Invocation, caller: Address, amount: i128) -> Option<ContractError> {
        if self.is_paused {
            Some(ContractError::ContractPaused)
        } else if !inv.authorizes(caller) {
            Some(ContractError::AuthorizationMissing)
        } else if amount <= 0 {
            Some(ContractError::AmountNotPositive)
        } else if self.token is None {
            Some(ContractError::NotInitialized)
        } else if !self.is_spender(caller) {
            Some(ContractError::NotAuthorizedSpender)
        } else {
            None
        }
    }

    /// Which check refuses `emergency_sweep`, if any.
    pub open spec fn sweep_error(self, inv: &Invocation, admin: Address) -> Option<ContractError> {
        if self.auth_first_error(inv, admin) is Some {
            self.auth_first_error(inv, admin)
        } else if self.token is None {
            Some(ContractError::NotInitialized)
        } else {
            None
        }
    }

    /// Which check refuses `migrate`, if any.
    pub open spec fn migrate_error(self, inv: &Invocation, admin: Address) -> Option<ContractError> {
        if self.auth_first_error(inv, admin) is Some {
            self.auth_first_error(inv, admin)
        } else if self.version >= VERSION {
            Some(ContractError::AlreadyAtCurrentVersion)
        } else {
            None
        }
    }
}

/// A call that can change the pool's storage, with its arguments. The other
/// entry points (`distribute_reward`, `fund_pool`, `emergency_sweep`,
/// `upgrade_contract` and the getters) take the pool by shared reference and
/// leave its storage as it is.
pub enum PoolCall {
    Initialize { inv: Invocation, admin: Address, token: Address },
    AddApprovedSpender { inv: Invocation, admin: Address, spender: Address },
    RemoveApprovedSpender { inv: Invocation, admin: Address, spender: Address },
    SetPause { inv: Invocation, admin: Address, status: bool },
    Migrate { inv: Invocation, admin: Address },
}

impl PoolState {
    /// The storage after `call`: unchanged when the call is refused.
    pub open spec fn after_call(self, call: PoolCall) -> PoolState {
        match call {
            PoolCall::Initialize { inv, admin, token } => {
                if self.admin is None && inv.authorizes(admin) {
                    PoolState { admin: Some(admin), token: Some(token), ..self }
                } else {
                    self
                }
            },
            PoolCall::AddApprovedSpender { inv, admin, spender } => {
                if self.add_error(&inv, admin, spender) is None { self.after_add(spender) } else { self }
            },
            PoolCall::RemoveApprovedSpender { inv, admin, spender } => {
                if self.remove_error(&inv, admin, spender) is None { self.after_remove(spender) } else { self }
            },
            PoolCall::SetPause { inv, admin, status } => {
                if self.admin_first_error(&inv, admin) is None { PoolState { is_paused: status, ..self } } else { self }
            },
            PoolCall::Migrate { inv, admin } => {
                if self.migrate_error(&inv, admin) is None { PoolState { version: VERSION, ..self } } else { self }
            },
        }
    }

    /// The storage after `calls`, made in order.
    pub open spec fn after_calls(self, calls: Seq<PoolCall>) -> PoolState
        decreases calls.len(),
    {
        if calls.len() == 0 {
            self
        } else {
            self.after_calls(calls.drop_last()).after_call(calls.last())
        }
    }
}

impl RewardPool {
    /// A contract with empty storage, as deployed.
    pub fn new() -> (c: RewardPool)
        ensures
            c@.admin is None && c@.token is None,
            c@.spenders == Map::<Address, bool>::empty(),
            c@.spender_count == 0 && !c@.is_paused && c@.version == 0,
    {
        RewardPool { admin: None, token: None, spenders: Table::new(), spender_count: 0, is_paused: false, version: 0 }
    }

    fn check_admin_first(&self, inv: &Invocation, admin: &Address) -> (r: Result<(), ContractError>)
        ensures
            match self@.admin_first_error(inv, *admin) {
                Some(e) => r == Err::<(), ContractError>(e),
                None => r is Ok,
            },
    {
        match self.admin {
            None => Err(ContractError::NotInitialized),
            Some(stored) => {
                if !same_address(admin, &stored) {
                    Err(ContractError::Unauthorized)
                } else if !inv.require_auth(admin) {
                    Err(ContractError::AuthorizationMissing)
                } else {
                    Ok(())
                }
            },
        }
    }

    fn check_auth_first(&self, inv: &Invocation, admin: &Address) -> (r: Result<(), ContractError>)
        ensures
            match self@.auth_first_error(inv, *admin) {
                Some(e) => r == Err::<(), ContractError>(e),
                None => r is Ok,
            },
    {
        if !inv.require_auth(admin) {
            return Err(ContractError::AuthorizationMissing);
        }
        match self.admin {
            None => Err(ContractError::NotInitialized),
            Some(stored) => if same_address(admin, &stored) { Ok(()) } else { Err(ContractError::Unauthorized) },
        }
    }

    /// Records the admin and the reward token. Refused when already
    /// initialized.
    pub fn initialize(&mut self, inv: &Invocation, admin: Address, token: Address) -> (r: Result<Vec<Effect>, ContractError>)
        ensures
            old(self)@.admin is Some
                ==> r == Err::<Vec<Effect>, ContractError>(ContractError::AlreadyInitialized) && final(self)@ == old(self)@,
            old(self)@.admin is None && !inv.authorizes(admin)
                ==> r == Err::<Vec<Effect>, ContractError>(ContractError::AuthorizationMissing) && final(self)@ == old(self)@,
            final(self)@ == old(self)@.after_call(PoolCall::Initialize { inv: *inv, admin, token }),
            old(self)@.admin is None && inv.authorizes(admin) ==> {
                &&& r is Ok
                &&& final(self)@ == (PoolState { admin: Some(admin), token: Some(token), ..old(self)@ })
                &&& r->Ok_0@ == seq![Effect::Emit(Event::PoolInitialized(PoolInitialized { admin, token }))]
            },
    {
        if self.admin.is_some() {
            return Err(ContractError::AlreadyInitialized);
        }
        if !inv.require_auth(&admin) {
            return Err(ContractError::AuthorizationMissing);
        }
        self.admin = Some(admin);
        self.token = Some(token);
        Ok(vec![Effect::Emit(Event::PoolInitialized(PoolInitialized { admin, token }))])
    }

    /// Whitelists a contract so that it may pay rewards out of the pool.
    /// Whitelisting again changes nothing but the event; the count grows
    /// only for a new spender. Admin only.
    pub fn add_approved_spender(&mut self, inv: &Invocation, admin: Address, spender: Address) -> (r: Result<Vec<Effect>, ContractError>)
        ensures
            final(self)@ == old(self)@.after_call(PoolCall::AddApprovedSpender { inv: *inv, admin, spender }),
            match old(self)@.add_error(inv, admin, spender) {
                Some(e) => r == Err::<Vec<Effect>, ContractError>(e) && final(self)@ == old(self)@,
                None => {
                    &&& r is Ok
                    &&& final(self)@ == old(self)@.after_add(spender)
                    &&& r->Ok_0@ == seq![Effect::Emit(Event::SpenderAdded(SpenderAdded { spender }))]
                },
            },
    {
        self.check_admin_first(inv, &admin)?;
        let is_new = !self.spenders.contains(&spender);
        if is_new && self.spender_count == u32::MAX {
            return Err(ContractError::ArithmeticOverflow);
        }
        self.spenders.insert(spender, true);
        if is_new {
            self.spender_count = self.spender_count + 1;
        }
        Ok(vec![Effect::Emit(Event::SpenderAdded(SpenderAdded { spender }))])
    }

    /// Removes a contract from the whitelist; refused when it is not on it.
    /// The count shrinks by one, never below zero. Admin only.
    pub fn remove_approved_spender(&mut self, inv: &Invocation, admin: Address, spender: Address) -> (r: Result<Vec<Effect>, ContractError>)
        ensures
            final(self)@ == old(self)@.after_call(PoolCall::RemoveApprovedSpender { inv: *inv, admin, spender }),
            match old(self)@.remove_error(inv, admin, spender) {
                Some(e) => r == Err::<Vec<Effect>, ContractError>(e) && final(self)@ == old(self)@,
                None => {
                    &&& r is Ok
                    &&& final(self)@ == old(self)@.after_remove(spender)
                    &&& r->Ok_0@ == seq![Effect::Emit(Event::SpenderRemoved(SpenderRemoved { spender }))]
                },
            },
    {
        self.check_admin_first(inv, &admin)?;
        if !self.spenders.contains(&spender) {
            return Err(ContractError::SpenderNotFound);
        }
        self.spenders.remove(&spender);
        if self.spender_count > 0 {
            self.spender_count = self.spender_count - 1;
        }
        Ok(vec![Effect::Emit(Event::SpenderRemoved(SpenderRemoved { spender }))])
    }

    /// Sets the pause switch that stops payouts. Admin only.
    pub fn set_pause(&mut self, inv: &Invocation, admin: Address, status: bool) -> (r: Result<(), ContractError>)
        ensures
            final(self)@ == old(self)@.after_call(PoolCall::SetPause { inv: *inv, admin, status }),
            match old(self)@.admin_first_error(inv, admin) {
                Some(e) => r == Err::<(), ContractError>(e) && final(self)@ == old(self)@,
                None => r is Ok && final(self)@ == (PoolState { is_paused: status, ..old(self)@ }),
            },
    {
        self.check_admin_first(inv, &admin)?;
        self.is_paused = status;
        Ok(())
    }

    /// Pays `amount` of the pool's token to a learner on behalf of a
    /// whitelisted caller. Refused while paused, for a non-positive amount
    /// and for a caller not on the whitelist. Storage is not changed.
    pub fn distribute_reward(&self, inv: &Invocation, caller: Address, learner: Address, amount: i128) -> (r: Result<Vec<Effect>, ContractError>)
        ensures
            match self@.distribute_error(inv, caller, amount) {
                Some(e) => r == Err::<Vec<Effect>, ContractError>(e),
                None => r is Ok && r->Ok_0@ == seq![
                    Effect::Transfer { token: self@.token->Some_0, from: Party::ThisContract, to: Party::Other(learner), amount },
                    Effect::Emit(Event::RewardDistributed(RewardDistributed { caller, learner, amount })),
                ],
            },
    {
        if self.is_paused {
            return Err(ContractError::ContractPaused);
        }
        if !inv.require_auth(&caller) {
            return Err(ContractError::AuthorizationMissing);
        }
        if amount <= 0 {
            return Err(ContractError::AmountNotPositive);
        }
        let token = match self.token {
            Some(t) => t,
            None => return Err(ContractError::NotInitialized),
        };
        let authorized = match self.spenders.get(&caller) {
            Some(b) => *b,
            None => false,
        };
        if !authorized {
            return Err(ContractError::NotAuthorizedSpender);
        }
        Ok(vec![
            Effect::Transfer { token, from: Party::ThisContract, to: Party::Other(learner), amount },
            Effect::Emit(Event::RewardDistributed(RewardDistributed { caller, learner, amount })),
        ])
    }

    /// A donor tops up the pool with `amount` of its token. Storage is not
    /// changed.
    pub fn fund_pool(&self, inv: &Invocation, donor: Address, amount: i128) -> (r: Result<Vec<Effect>, ContractError>)
        ensures
            !inv.authorizes(donor) ==> r == Err::<Vec<Effect>, ContractError>(ContractError::AuthorizationMissing),
            inv.authorizes(donor) && self@.token is None ==> r == Err::<Vec<Effect>, ContractError>(ContractError::NotInitialized),
            inv.authorizes(donor) && self@.token is Some ==> r is Ok && r->Ok_0@ == seq![
                Effect::Transfer { token: self@.token->Some_0, from: Party::Other(donor), to: Party::ThisContract, amount },
                Effect::Emit(Event::PoolFunded(PoolFunded { donor, amount })),
            ],
    {
        if !inv.require_auth(&donor) {
            return Err(ContractError::AuthorizationMissing);
        }
        let token = match self.token {
            Some(t) => t,
            None => return Err(ContractError::NotInitialized),
        };
        Ok(vec![
            Effect::Transfer { token, from: Party::Other(donor), to: Party::ThisContract, amount },
            Effect::Emit(Event::PoolFunded(PoolFunded { donor, amount })),
        ])
    }

    /// Moves the pool's whole token balance to a recovery wallet. `balance`
    /// is what the token reports as this contract's balance. Admin only;
    /// storage is not changed.
    pub fn emergency_sweep(&self, inv: &Invocation, admin: Address, recovery_wallet: Address, balance: i128) -> (r: Result<Vec<Effect>, ContractError>)
        ensures
            match self@.sweep_error(inv, admin) {
                Some(e) => r == Err::<Vec<Effect>, ContractError>(e),
                None => r is Ok && r->Ok_0@ == seq![
                    Effect::Transfer { token: self@.token->Some_0, from: Party::ThisContract, to: Party::Other(recovery_wallet), amount: balance },
                    Effect::Emit(Event::EmergencySweep(EmergencySweep { admin, recovery_wallet, amount: balance })),
                ],
            },
    {
        self.check_auth_first(inv, &admin)?;
        let token = match self.token {
            Some(t) => t,
            None => return Err(ContractError::NotInitialized),
        };
        Ok(vec![
            Effect::Transfer { token, from: Party::ThisContract, to: Party::Other(recovery_wallet), amount: balance },
            Effect::Emit(Event::EmergencySweep(EmergencySweep { admin, recovery_wallet, amount: balance })),
        ])
    }

    /// The number of whitelist entries the pool keeps, as counted by
    /// `add_approved_spender` and `remove_approved_spender`.
    pub fn estimated_storage_footprint(&self) -> (n: u32)
        ensures
            n == self@.spender_count,
    {
        self.spender_count
    }

    /// Replaces this contract's code. Admin only; `migrate` must follow.
    pub fn upgrade_contract(&self, inv: &Invocation, admin: Address, new_wasm_hash: Hash32) -> (r: Result<Vec<Effect>, ContractError>)
        ensures
            match self@.auth_first_error(inv, admin) {
                Some(e) => r == Err::<Vec<Effect>, ContractError>(e),
                None => r is Ok && r->Ok_0@ == seq![
                    Effect::UpdateWasm { new_wasm_hash },
                    Effect::Emit(Event::ContractUpgraded(ContractUpgraded { admin, new_wasm_hash })),
                ],
            },
    {
        self.check_auth_first(inv, &admin)?;
        Ok(vec![
            Effect::UpdateWasm { new_wasm_hash },
            Effect::Emit(Event::ContractUpgraded(ContractUpgraded { admin, new_wasm_hash })),
        ])
    }

    /// Applies pending storage migrations and records the current schema
    /// version. Admin only; refused when already at `VERSION`.
    pub fn migrate(&mut self, inv: &Invocation, admin: Address) -> (r: Result<(), ContractError>)
        ensures
            final(self)@ == old(self)@.after_call(PoolCall::Migrate { inv: *inv, admin }),
            match old(self)@.migrate_error(inv, admin) {
                Some(e) => r == Err::<(), ContractError>(e) && final(self)@ == old(self)@,
                None => r is Ok && final(self)@ == (PoolState { version: VERSION, ..old(self)@ }),
            },
    {
        self.check_auth_first(inv, &admin)?;
        if self.version >= VERSION {
            return Err(ContractError::AlreadyAtCurrentVersion);
        }
        self.version = VERSION;
        Ok(())
    }

    /// The stored schema version; 0 before any migration.
    pub fn contract_version(&self) -> (v: u32)
        ensures
            v == self@.version,
    {
        self.version
    }
}


// ── Laws ────────────────────────────────────────────────────────────────────

/// The storage footprint counter matches the whitelist: it equals the
/// number of whitelisted spenders.
pub open spec fn pool_wf(s: PoolState) -> bool {
    &&& s.spenders.dom().finite()
    &&& s.spender_count == s.spenders.dom().len()
}

/// A freshly deployed pool's counter matches its (empty) whitelist.
pub proof fn law_wf_new(s: PoolState)
    requires
        s.spenders == Map::<Address, bool>::empty(),
        s.spender_count == 0,
    ensures
        pool_wf(s),
{
    assert(s.spenders.dom() =~= Set::<Address>::empty());
}

/// Whitelisting keeps the footprint counter equal to the number of
/// whitelisted spenders.
pub proof fn law_wf_add(s: PoolState, inv: &Invocation, admin: Address, spender: Address)
    requires
        pool_wf(s),
        s.add_error(inv, admin, spender) is None,
    ensures
        pool_wf(s.after_add(spender)),
{
    let s2 = s.after_add(spender);
    if s.spenders.contains_key(spender) {
        assert(s2.spenders.dom() =~= s.spenders.dom());
    } else {
        assert(s2.spenders.dom() =~= s.spenders.dom().insert(spender));
    }
}

/// Removing a spender keeps the footprint counter equal to the number of
/// whitelisted spenders.
pub proof fn law_wf_remove(s: PoolState, inv: &Invocation, admin: Address, spender: Address)
    requires
        pool_wf(s),
        s.remove_error(inv, admin, spender) is None,
    ensures
        pool_wf(s.after_remove(spender)),
{
    let s2 = s.after_remove(spender);
    assert(s2.spenders.dom() =~= s.spenders.dom().remove(spender));
    assert(s.spenders.dom().contains(spender));
    assert(s.spenders.dom().len() > 0);
}

/// Whitelisting twice is the same as whitelisting once.
pub proof fn law_add_idempotent(s: PoolState, spender: Address)
    ensures
        s.after_add(spender).after_add(spender) == s.after_add(spender),
{
    assert(s.after_add(spender).after_add(spender).spenders =~= s.after_add(spender).spenders);
}

/// Whitelisting a new spender and then removing it restores the whitelist
/// and its counter.
pub proof fn law_add_then_remove(s: PoolState, spender: Address)
    requires
        pool_wf(s),
        !s.spenders.contains_key(spender),
        s.spender_count < u32::MAX,
    ensures
        s.after_add(spender).after_remove(spender) == s,
{
    assert(s.after_add(spender).after_remove(spender).spenders =~= s.spenders);
}

/// Only a whitelisted caller can pay out, and never while the pool is paused
/// or for a non-positive amount; once a spender is removed, its payouts are
/// refused.
pub proof fn law_payout_needs_whitelist(s: PoolState, inv: &Invocation, caller: Address, amount: i128)
    ensures
        s.distribute_error(inv, caller, amount) is None
            ==> s.is_spender(caller) && !s.is_paused && amount > 0 && inv.authorizes(caller),
        s.after_remove(caller).distribute_error(inv, caller, amount) is Some,
{
}


/// Over any sequence of calls from a deployed pool, the footprint counter
/// stays equal to the number of distinct whitelisted spenders.
pub proof fn law_footprint_over_calls(s: PoolState, calls: Seq<PoolCall>)
    requires
        pool_wf(s),
    ensures
        pool_wf(s.after_calls(calls)),
    decreases calls.len(),
{
    if calls.len() > 0 {
        let mid = s.after_calls(calls.drop_last());
        law_footprint_over_calls(s, calls.drop_last());
        match calls.last() {
            PoolCall::AddApprovedSpender { inv, admin, spender } => {
                if mid.add_error(&inv, admin, spender) is None {
                    law_wf_add(mid, &inv, admin, spender);
                }
            },
            PoolCall::RemoveApprovedSpender { inv, admin, spender } => {
                if mid.remove_error(&inv, admin, spender) is None {
                    law_wf_remove(mid, &inv, admin, spender);
                }
            },
            _ => {},
        }
    }
}

/// A removal that the whitelist does not hold is refused and changes
/// nothing; an accepted one takes the spender off the whitelist, and the
/// footprint then counts the remaining distinct spenders.
pub proof fn law_remove_spender(s: PoolState, inv: &Invocation, admin: Address, spender: Address)
    requires
        pool_wf(s),
        s.admin_first_error(inv, admin) is None,
    ensures
        !s.spenders.contains_key(spender) ==> s.remove_error(inv, admin, spender) == Some(ContractError::SpenderNotFound)
            && s.after_call(PoolCall::RemoveApprovedSpender { inv: *inv, admin, spender }) == s,
        s.spenders.contains_key(spender) ==> {
            let s2 = s.after_call(PoolCall::RemoveApprovedSpender { inv: *inv, admin, spender });
            &&& !s2.spenders.contains_key(spender)
            &&& s2.spender_count == s2.spenders.dom().len()
        },
{
    if s.spenders.contains_key(spender) {
        law_wf_remove(s, inv, admin, spender);
    }
}

} // verus!
