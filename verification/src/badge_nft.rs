use vstd::prelude::*;
use crate::common::{Address, ContractError, Hash32, Invocation, same_address};
use crate::table::Table;

verus! {

/// Storage schema version of this contract.
pub const VERSION: u32 = 1;

/// The most badges one learner may hold.
pub const MAX_BADGES_PER_LEARNER: u32 = 64;

/// A soulbound badge: proof that its holder completed a course.
#[derive(Clone, Copy, Debug, PartialEq, Eq)]
pub struct Badge {
    pub course_id: u32,
    pub minted_at: u64,
}

// ── Events ──────────────────────────────────────────────────────────────────

#[derive(Clone, Copy, Debug, PartialEq, Eq)]
pub struct BadgeMinted {
    pub learner: Address,
    pub course_id: u32,
    pub minted_at: u64,
}

#[derive(Clone, Copy, Debug, PartialEq, Eq)]
pub struct BadgeRevoked {
    pub learner: Address,
    pub course_id: u32,
}

#[derive(Clone, Copy, Debug, PartialEq, Eq)]
pub struct ContractUpgraded {
    pub admin: Address,
    pub new_wasm_hash: Hash32,
}

/// The events this contract publishes.
#[derive(Clone, Copy, Debug, PartialEq, Eq)]
pub enum Event {
    BadgeMinted(BadgeMinted),
    BadgeRevoked(BadgeRevoked),
    ContractUpgraded(ContractUpgraded),
}

/// Outside work that an accepted call asks of the host, in order.
#[derive(Clone, Copy, Debug, PartialEq, Eq)]
pub enum Effect {
    /// Replace this contract's code.
    UpdateWasm { new_wasm_hash: Hash32 },
    /// Publish an event.
    Emit(Event),
}

/// Whether a badge list holds a badge for `course_id`.
pub open spec fn has_course(list: Seq<Badge>, course_id: u32) -> bool {
    exists|i: int| 0 <= i < list.len() && list[i].course_id == course_id
}

/// The first position in a badge list that holds a badge for `course_id`.
pub open spec fn is_first_position(list: Seq<Badge>, course_id: u32, i: int) -> bool {
    &&& 0 <= i < list.len()
    &&& list[i].course_id == course_id
    &&& forall|j: int| 0 <= j < i ==> list[j].course_id != course_id
}

/// The position at which `revoke_badge` removes the badge for `course_id`.
pub open spec fn first_position(list: Seq<Badge>, course_id: u32) -> int {
    choose|i: int| is_first_position(list, course_id, i)
}

// ── Contract storage ────────────────────────────────────────────────────────

/// The badge contract's storage: the registry allowed to mint and revoke,
/// and each learner's badges in the order they were minted.
pub struct BadgeNFT {
    pub admin: Option<Address>,
    pub version: u32,
    pub badges: Table<Address, Vec<Badge>>,
}

/// The badge contract's storage as mathematical values.
pub struct BadgeState {
    pub admin: Option<Address>,
    pub version: u32,
    pub badges: Map<Address, Seq<Badge>>,
}

impl View for BadgeNFT {
    type V = BadgeState;

    open spec fn view(&self) -> BadgeState {
        BadgeState {
            admin: self.admin,
            version: self.version,
            badges: self.badges@.map_values(|v: Vec<Badge>| v@),
        }
    }
}

impl BadgeState {
    /// A learner's badges: none when nothing is recorded.
    pub open spec fn badges_of(self, learner: Address) -> Seq<Badge> {
        if self.badges.contains_key(learner) { self.badges[learner] } else { Seq::<Badge>::empty() }
    }

    /// The storage after a badge for `course_id` is minted at time `now`.
    pub open spec fn after_mint(self, learner: Address, course_id: u32, now: u64) -> BadgeState {
        BadgeState {
            badges: self.badges.insert(learner, self.badges_of(learner).push(Badge { course_id, minted_at: now })),
            ..self
        }
    }

    /// The storage after the learner's badge for `course_id` is revoked.
    pub open spec fn after_revoke(self, learner: Address, course_id: u32) -> BadgeState {
        let list = self.badges_of(learner);
        BadgeState { badges: self.badges.insert(learner, list.remove(first_position(list, course_id))), ..self }
    }

    /// Which check refuses `mint_badge` or `revoke_badge` for a caller that
    /// is not the registry.
    pub open spec fn registry_error(self, inv: &Invocation, caller: Address) -> Option<ContractError> {
        if !inv.authorizes(caller) {
            Some(ContractError::AuthorizationMissing)
        } else if self.admin is None {
            Some(ContractError::ContractNotInitialized)
        } else if self.admin != Some(caller) {
            Some(ContractError::NotAuthorizedRegistry)
        } else {
            None
        }
    }

    /// Which check refuses `mint_badge`, if any.
    pub open spec fn mint_error(self, inv: &Invocation, caller: Address, learner: Address, course_id: u32) -> Option<ContractError> {
        if self.registry_error(inv, caller) is Some {
            self.registry_error(inv, caller)
        } else if self.badges_of(learner).len() >= MAX_BADGES_PER_LEARNER {
            Some(ContractError::MaxBadgesReached)
        } else if has_course(self.badges_of(learner), course_id) {
            Some(ContractError::BadgeAlreadyExists)
        } else {
            None
        }
    }

    /// Which check refuses `upgrade_contract` or the first part of `migrate`.
    pub open spec fn admin_error(self, inv: &Invocation, admin: Address) -> Option<ContractError> {
        if !inv.authorizes(admin) {
            Some(ContractError::AuthorizationMissing)
        } else if self.admin is None {
            Some(ContractError::NotInitialized)
        } else if self.admin != Some(admin) {
            Some(ContractError::Unauthorized)
        } else {
            None
        }
    }
}

fn copy_badges(v: &Vec<Badge>) -> (r: Vec<Badge>)
    ensures
        r@ == v@,
{
    let mut r: Vec<Badge> = Vec::new();
    let mut i: usize = 0;
    while i < v.len()
        invariant
            i <= v.len(),
            r@ == v@.take(i as int),
        decreases v.len() - i,
    {
        r.push(v[i]);
        proof { assert(r@ =~= v@.take(i + 1)); }
        i = i + 1;
    }
    proof { assert(v@.take(v.len() as int) =~= v@); }
    r
}

/// A call that can change the badge storage, with its arguments. The other
/// entry points (`upgrade_contract` and the getters) take the contract by
/// shared reference and leave its storage as it is.
pub enum BadgeCall {
    Initialize { admin: Address },
    MintBadge { inv: Invocation, caller: Address, learner: Address, course_id: u32 },
    RevokeBadge { inv: Invocation, admin: Address, learner: Address, course_id: u32 },
    Migrate { inv: Invocation, admin: Address },
}

impl BadgeState {
    /// The storage after `call`: unchanged when the call is refused or, for
    /// a revocation, when there is no such badge.
    pub open spec fn after_call(self, call: BadgeCall) -> BadgeState {
        match call {
            BadgeCall::Initialize { admin } => {
                if self.admin is None { BadgeState { admin: Some(admin), ..self } } else { self }
            },
            BadgeCall::MintBadge { inv, caller, learner, course_id } => {
                if self.mint_error(&inv, caller, learner, course_id) is None {
                    self.after_mint(learner, course_id, inv.now)
                } else {
                    self
                }
            },
            BadgeCall::RevokeBadge { inv, admin, learner, course_id } => {
                if self.registry_error(&inv, admin) is None && has_course(self.badges_of(learner), course_id) {
                    self.after_revoke(learner, course_id)
                } else {
                    self
                }
            },
            BadgeCall::Migrate { inv, admin } => {
                if self.admin_error(&inv, admin) is None && self.version < VERSION {
                    BadgeState { version: VERSION, ..self }
                } else {
                    self
                }
            },
        }
    }

    /// The storage after `calls`, made in order.
    pub open spec fn after_calls(self, calls: Seq<BadgeCall>) -> BadgeState
        decreases calls.len(),
    {
        if calls.len() == 0 {
            self
        } else {
            self.after_calls(calls.drop_last()).after_call(calls.last())
        }
    }
}

impl BadgeNFT {
    /// A contract with empty storage, as deployed.
    pub fn new() -> (c: BadgeNFT)
        ensures
            c@.admin is None && c@.version == 0,
            c@.badges == Map::<Address, Seq<Badge>>::empty(),
    {
        let c = BadgeNFT { admin: None, version: 0, badges: Table::new() };
        proof { assert(c@.badges =~= Map::<Address, Seq<Badge>>::empty()); }
        c
    }

    fn lookup(&self, learner: &Address) -> (r: Vec<Badge>)
        ensures
            r@ == self@.badges_of(*learner),
    {
        match self.badges.get(learner) {
            Some(v) => copy_badges(v),
            None => Vec::new(),
        }
    }

    fn store(&mut self, learner: Address, list: Vec<Badge>)
        ensures
            final(self)@ == (BadgeState { badges: old(self)@.badges.insert(learner, list@), ..old(self)@ }),
    {
        let ghost l = list@;
        self.badges.insert(learner, list);
        proof { assert(self@.badges =~= old(self)@.badges.insert(learner, l)); }
    }

    /// Records the registry allowed to mint and revoke badges. Refused when
    /// one is already recorded.
    pub fn initialize(&mut self, admin: Address) -> (r: Result<(), ContractError>)
        ensures
            final(self)@ == old(self)@.after_call(BadgeCall::Initialize { admin }),
            old(self)@.admin is Some ==> r == Err::<(), ContractError>(ContractError::AlreadyInitialized) && final(self)@ == old(self)@,
            old(self)@.admin is None ==> r is Ok && final(self)@ == (BadgeState { admin: Some(admin), ..old(self)@ }),
    {
        if self.admin.is_some() {
            return Err(ContractError::AlreadyInitialized);
        }
        self.admin = Some(admin);
        Ok(())
    }

    /// Mints a soulbound badge for `course_id` to the learner. Only the
    /// registry may mint; a learner holds at most one badge per course and
    /// at most `MAX_BADGES_PER_LEARNER` badges.
    #[verifier::loop_isolation(false)]
    pub fn mint_badge(&mut self, inv: &Invocation, caller: Address, learner: Address, course_id: u32) -> (r: Result<Vec<Effect>, ContractError>)
        ensures
            final(self)@ == old(self)@.after_call(BadgeCall::MintBadge { inv: *inv, caller, learner, course_id }),
            match old(self)@.mint_error(inv, caller, learner, course_id) {
                Some(e) => r == Err::<Vec<Effect>, ContractError>(e) && final(self)@ == old(self)@,
                None => {
                    &&& r is Ok
                    &&& final(self)@ == old(self)@.after_mint(learner, course_id, inv.now)
                    &&& r->Ok_0@ == seq![Effect::Emit(Event::BadgeMinted(BadgeMinted { learner, course_id, minted_at: inv.now }))]
                },
            },
    {
        if !inv.require_auth(&caller) {
            return Err(ContractError::AuthorizationMissing);
        }
        match self.admin {
            None => return Err(ContractError::ContractNotInitialized),
            Some(stored) => {
                if !same_address(&caller, &stored) {
                    return Err(ContractError::NotAuthorizedRegistry);
                }
            },
        }
        let mut badges = self.lookup(&learner);
        if badges.len() >= 64 {
            return Err(ContractError::MaxBadgesReached);
        }
        let mut i: usize = 0;
        while i < badges.len()
            invariant
                badges@ == self@.badges_of(learner),
                i <= badges.len(),
                forall|j: int| 0 <= j < i ==> badges@[j].course_id != course_id,
            decreases badges.len() - i,
        {
            if badges[i].course_id == course_id {
                proof { assert(badges@[i as int].course_id == course_id); }
                return Err(ContractError::BadgeAlreadyExists);
            }
            i = i + 1;
        }
        let minted_at = inv.now;
        badges.push(Badge { course_id, minted_at });
        self.store(learner, badges);
        Ok(vec![Effect::Emit(Event::BadgeMinted(BadgeMinted { learner, course_id, minted_at }))])
    }

    /// Revokes the learner's badge for `course_id`; when there is none,
    /// nothing changes and no event is published. Only the registry may
    /// revoke.
    #[verifier::loop_isolation(false)]
    pub fn revoke_badge(&mut self, inv: &Invocation, admin: Address, learner: Address, course_id: u32) -> (r: Result<Vec<Effect>, ContractError>)
        ensures
            final(self)@ == old(self)@.after_call(BadgeCall::RevokeBadge { inv: *inv, admin, learner, course_id }),
            match old(self)@.registry_error(inv, admin) {
                Some(e) => r == Err::<Vec<Effect>, ContractError>(e) && final(self)@ == old(self)@,
                None => {
                    let list = old(self)@.badges_of(learner);
                    &&& r is Ok
                    &&& has_course(list, course_id) ==> {
                        &&& final(self)@ == old(self)@.after_revoke(learner, course_id)
                        &&& r->Ok_0@ == seq![Effect::Emit(Event::BadgeRevoked(BadgeRevoked { learner, course_id }))]
                    }
                    &&& !has_course(list, course_id) ==> final(self)@ == old(self)@ && r->Ok_0@ == Seq::<Effect>::empty()
                },
            },
    {
        if !inv.require_auth(&admin) {
            return Err(ContractError::AuthorizationMissing);
        }
        match self.admin {
            None => return Err(ContractError::ContractNotInitialized),
            Some(stored) => {
                if !same_address(&admin, &stored) {
                    return Err(ContractError::NotAuthorizedRegistry);
                }
            },
        }
        let mut badges = self.lookup(&learner);
        let ghost list = badges@;
        let mut i: usize = 0;
        while i < badges.len()
            invariant
                badges@ == list,
                list == self@.badges_of(learner),
                self@ == old(self)@,
                i <= badges.len(),
                forall|j: int| 0 <= j < i ==> badges@[j].course_id != course_id,
            decreases badges.len() - i,
        {
            if badges[i].course_id == course_id {
                proof {
                    assert(list[i as int].course_id == course_id);
                    assert(is_first_position(list, course_id, i as int));
                    let f = first_position(list, course_id);
                    assert(is_first_position(list, course_id, f));
                    assert(f == i) by {
                        if f < i {
                            assert(list[f].course_id != course_id);
                        } else if f > i {
                            assert(list[i as int].course_id != course_id);
                        }
                    }
                }
                let _ = badges.remove(i);
                self.store(learner, badges);
                return Ok(vec![Effect::Emit(Event::BadgeRevoked(BadgeRevoked { learner, course_id }))]);
            }
            i = i + 1;
        }
        proof { assert(!has_course(list, course_id)); }
        Ok(Vec::new())
    }

    /// All badges of a learner, in the order they were minted; empty when the
    /// learner has none.
    pub fn get_badges(&self, learner: Address) -> (r: Vec<Badge>)
        ensures
            r@ == self@.badges_of(learner),
    {
        self.lookup(&learner)
    }

    /// The number of badges a learner holds (saturating at `u32::MAX`).
    pub fn get_badge_count(&self, learner: Address) -> (n: u32)
        ensures
            n == (if self@.badges_of(learner).len() <= u32::MAX { self@.badges_of(learner).len() as u32 } else { u32::MAX }),
    {
        let n = match self.badges.get(&learner) {
            Some(v) => v.len(),
            None => 0,
        };
        if n <= 0xffff_ffffusize { n as u32 } else { 0xffff_ffffu32 }
    }

    /// Whether the learner holds a badge for `course_id`.
    pub fn has_badge(&self, learner: Address, course_id: u32) -> (b: bool)
        ensures
            b == has_course(self@.badges_of(learner), course_id),
    {
        let badges = self.lookup(&learner);
        let mut i: usize = 0;
        while i < badges.len()
            invariant
                badges@ == self@.badges_of(learner),
                i <= badges.len(),
                forall|j: int| 0 <= j < i ==> badges@[j].course_id != course_id,
            decreases badges.len() - i,
        {
            if badges[i].course_id == course_id {
                proof { assert(badges@[i as int].course_id == course_id); }
                return true;
            }
            i = i + 1;
        }
        false
    }

    /// Replaces this contract's code. Admin only; `migrate` must follow.
    pub fn upgrade_contract(&self, inv: &Invocation, admin: Address, new_wasm_hash: Hash32) -> (r: Result<Vec<Effect>, ContractError>)
        ensures
            match self@.admin_error(inv, admin) {
                Some(e) => r == Err::<Vec<Effect>, ContractError>(e),
                None => r is Ok && r->Ok_0@ == seq![
                    Effect::UpdateWasm { new_wasm_hash },
                    Effect::Emit(Event::ContractUpgraded(ContractUpgraded { admin, new_wasm_hash })),
                ],
            },
    {
        self.check_admin(inv, &admin)?;
        Ok(vec![
            Effect::UpdateWasm { new_wasm_hash },
            Effect::Emit(Event::ContractUpgraded(ContractUpgraded { admin, new_wasm_hash })),
        ])
    }

    fn check_admin(&self, inv: &Invocation, admin: &Address) -> (r: Result<(), ContractError>)
        ensures
            match self@.admin_error(inv, *admin) {
                Some(e) => r == Err::<(), ContractError>(e),
                None => r is Ok,
            },
    {
        if !inv.require_auth(admin) {
            return Err(ContractError::AuthorizationMissing);
        }
        match self.admin {
            None => Err(ContractError::NotInitialized),
            Some(stored) => if same_address(admin, &stored) { Ok(()) } else { Err(ContractError::Unauthorized) },
        }
    }

    /// Applies pending storage migrations and records the current schema
    /// version. Admin only; refused when already at `VERSION`.
    pub fn migrate(&mut self, inv: &Invocation, admin: Address) -> (r: Result<(), ContractError>)
        ensures
            final(self)@ == old(self)@.after_call(BadgeCall::Migrate { inv: *inv, admin }),
            old(self)@.admin_error(inv, admin) is Some
                ==> r == Err::<(), ContractError>(old(self)@.admin_error(inv, admin)->Some_0) && final(self)@ == old(self)@,
            old(self)@.admin_error(inv, admin) is None && old(self)@.version >= VERSION
                ==> r == Err::<(), ContractError>(ContractError::AlreadyAtCurrentVersion) && final(self)@ == old(self)@,
            old(self)@.admin_error(inv, admin) is None && old(self)@.version < VERSION
                ==> r is Ok && final(self)@ == (BadgeState { version: VERSION, ..old(self)@ }),
    {
        self.check_admin(inv, &admin)?;
        if self.version >= VERSION {
            return Err(ContractError::AlreadyAtCurrentVersion);
        }
        self.version = VERSION;
        Ok(())
    }

    /// The stored schema version; 0 before any migration.
    pub fn contract_version(&self) -> (v: u32)
        ensures
            v == self@.version,
    {
        self.version
    }
}


// ── Laws ────────────────────────────────────────────────────────────────────

/// A badge list holds at most one badge per course.
pub open spec fn unique_courses(list: Seq<Badge>) -> bool {
    forall|i: int, j: int| 0 <= i < j < list.len() ==> #[trigger] list[i].course_id != #[trigger] list[j].course_id
}

/// The badge rules: every learner holds at most one badge per course and at
/// most `MAX_BADGES_PER_LEARNER` badges.
pub open spec fn badge_wf(s: BadgeState) -> bool {
    forall|learner: Address| #[trigger] s.badges.contains_key(learner)
        ==> unique_courses(s.badges[learner]) && s.badges[learner].len() <= MAX_BADGES_PER_LEARNER
}

/// Minting keeps the badge rules; the learner then holds the badge, has one
/// badge more, and a second mint for the same course is refused.
pub proof fn law_mint(s: BadgeState, inv: &Invocation, caller: Address, learner: Address, course_id: u32)
    requires
        badge_wf(s),
        s.mint_error(inv, caller, learner, course_id) is None,
    ensures
        ({
            let s2 = s.after_mint(learner, course_id, inv.now);
            &&& badge_wf(s2)
            &&& has_course(s2.badges_of(learner), course_id)
            &&& s2.badges_of(learner).len() == s.badges_of(learner).len() + 1
            &&& s2.mint_error(inv, caller, learner, course_id) is Some
            &&& s2.badges_of(learner).len() < MAX_BADGES_PER_LEARNER
                ==> s2.mint_error(inv, caller, learner, course_id) == Some(ContractError::BadgeAlreadyExists)
        }),
{
    let s2 = s.after_mint(learner, course_id, inv.now);
    let old_list = s.badges_of(learner);
    let list = s2.badges_of(learner);
    assert(list[old_list.len() as int].course_id == course_id);
    assert forall|a: Address| #[trigger] s2.badges.contains_key(a)
        implies unique_courses(s2.badges[a]) && s2.badges[a].len() <= MAX_BADGES_PER_LEARNER by {
        if a == learner {
            assert forall|i: int, j: int| 0 <= i < j < list.len()
                implies #[trigger] list[i].course_id != #[trigger] list[j].course_id by {
                if j == old_list.len() {
                    assert(old_list[i].course_id != course_id);
                } else {
                    assert(list[i] == old_list[i] && list[j] == old_list[j]);
                }
            }
        }
    }
}

/// Revoking keeps the badge rules; the learner no longer holds the badge
/// and has one badge fewer.
pub proof fn law_revoke(s: BadgeState, learner: Address, course_id: u32)
    requires
        badge_wf(s),
        has_course(s.badges_of(learner), course_id),
    ensures
        ({
            let s2 = s.after_revoke(learner, course_id);
            &&& badge_wf(s2)
            &&& !has_course(s2.badges_of(learner), course_id)
            &&& s2.badges_of(learner).len() == s.badges_of(learner).len() - 1
        }),
{
    let old_list = s.badges_of(learner);
    let w = choose|i: int| 0 <= i < old_list.len() && old_list[i].course_id == course_id;
    lemma_first_position_exists(old_list, course_id, w);
    let p = first_position(old_list, course_id);
    let s2 = s.after_revoke(learner, course_id);
    let list = s2.badges_of(learner);
    assert(list == old_list.remove(p));
    assert(s.badges.contains_key(learner));
    assert forall|i: int| 0 <= i < list.len() implies #[trigger] list[i] == (if i < p { old_list[i] } else { old_list[i + 1] }) by {}
    assert forall|i: int, j: int| 0 <= i < j < list.len()
        implies #[trigger] list[i].course_id != #[trigger] list[j].course_id by {
        let i2 = if i < p { i } else { i + 1 };
        let j2 = if j < p { j } else { j + 1 };
        assert(list[i] == old_list[i2] && list[j] == old_list[j2]);
        assert(old_list[i2].course_id != old_list[j2].course_id);
    }
    assert(!has_course(list, course_id)) by {
        if has_course(list, course_id) {
            let i = choose|i: int| 0 <= i < list.len() && list[i].course_id == course_id;
            let i2 = if i < p { i } else { i + 1 };
            assert(list[i] == old_list[i2]);
            if i2 < p {
                assert(old_list[i2].course_id != old_list[p].course_id);
            } else {
                assert(old_list[p].course_id != old_list[i2].course_id);
            }
        }
    }
}

/// A freshly deployed badge contract satisfies the badge rules.
pub proof fn law_wf_new(s: BadgeState)
    requires
        s.badges == Map::<Address, Seq<Badge>>::empty(),
    ensures
        badge_wf(s),
{
}

/// Over any sequence of calls from a state that keeps the badge rules (a
/// deployed contract does), every learner's badges stay unique per course
/// and at most `MAX_BADGES_PER_LEARNER`, so the badge count is the length of
/// the badge list.
pub proof fn law_badges_over_calls(s: BadgeState, calls: Seq<BadgeCall>, learner: Address)
    requires
        badge_wf(s),
    ensures
        badge_wf(s.after_calls(calls)),
        unique_courses(s.after_calls(calls).badges_of(learner)),
        s.after_calls(calls).badges_of(learner).len() <= MAX_BADGES_PER_LEARNER,
    decreases calls.len(),
{
    if calls.len() > 0 {
        let mid = s.after_calls(calls.drop_last());
        law_badges_over_calls(s, calls.drop_last(), learner);
        match calls.last() {
            BadgeCall::MintBadge { inv, caller, learner: l, course_id } => {
                if mid.mint_error(&inv, caller, l, course_id) is None {
                    law_mint(mid, &inv, caller, l, course_id);
                }
            },
            BadgeCall::RevokeBadge { inv, admin, learner: l, course_id } => {
                if mid.registry_error(&inv, admin) is None && has_course(mid.badges_of(l), course_id) {
                    law_revoke(mid, l, course_id);
                }
            },
            _ => {},
        }
    }
    let fin = s.after_calls(calls);
    if fin.badges.contains_key(learner) {
        assert(unique_courses(fin.badges[learner]));
    }
}

proof fn lemma_first_position_exists(list: Seq<Badge>, course_id: u32, w: int)
    requires
        0 <= w < list.len(),
        list[w].course_id == course_id,
    ensures
        is_first_position(list, course_id, first_position(list, course_id)),
    decreases w,
{
    if exists|j: int| 0 <= j < w && list[j].course_id == course_id {
        let j = choose|j: int| 0 <= j < w && list[j].course_id == course_id;
        lemma_first_position_exists(list, course_id, j);
    } else {
        assert(is_first_position(list, course_id, w));
    }
}

} // verus!
