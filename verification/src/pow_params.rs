//! Governance over the two consensus-economic parameters of the chain
//! (mining difficulty and per-block reward) and settlement of the block
//! author's reward.
//!
//! Per block: the host injects the producer's identity through the author
//! inherent, which fills the author slot at most once; privileged calls may
//! change the parameters; at finalization the reward is issued to the
//! recorded author exactly once and the slot is cleared unconditionally.

use vstd::prelude::*;
use parity_scale_codec::Decode;
use crate::account::{AccountId, Balance};
use crate::ledger::{Ledger, sat_add};

verus! {

/// The proof-of-work difficulty target: a 256-bit unsigned value, held as
/// two 128-bit halves (`lo` is the least significant).
#[derive(Clone, Copy, PartialEq, Eq, Structural, Debug)]
pub struct Difficulty {
    pub lo: u128,
    pub hi: u128,
}

impl Difficulty {
    pub fn from_u128(v: u128) -> (r: Difficulty)
        ensures
            r.lo == v,
            r.hi == 0,
    {
        Difficulty { lo: v, hi: 0 }
    }
}

/// The origin a call arrives under, as authenticated by the host's dispatch
/// layer before it reaches this module.
#[derive(Clone, Copy, PartialEq, Eq, Debug)]
pub enum Origin {
    /// The chain's governance authority.
    Root,
    /// An ordinary signed transaction from the given account.
    Signed(AccountId),
    /// An unsigned extrinsic, as inherents are.
    Unsigned,
}

/// The privileged parameter calls this module dispatches.
#[derive(Clone, Copy, PartialEq, Eq, Debug)]
pub enum Call {
    SetDifficulty(Difficulty),
    SetReward(Balance),
}

/// The observable events this module emits, one per successful privileged
/// call and never on failure.
#[derive(Clone, Copy, PartialEq, Eq, Structural, Debug)]
pub enum Event {
    DifficultyChanged(Difficulty),
    RewardChanged(Balance),
}

/// Everything that can go wrong inside this module.
#[derive(Clone, Copy, PartialEq, Eq, Structural, Debug)]
pub enum Error {
    /// A privileged call arrived under a non-root origin.
    Unauthorized,
    /// A second author claim arrived within one block.
    AlreadyClaimed,
    /// The author inherent's payload does not decode to an account.
    AuthorDecodeFailure,
}

impl Error {
    /// Whether the host must reject the whole block over this error.
    /// An authorization failure is an ordinary failed call and the block
    /// still finalizes; both inherent failures abort block application.
    pub fn is_fatal_error(&self) -> (r: bool)
        ensures
            r == (*self != Error::Unauthorized),
    {
        match self {
            Error::Unauthorized => false,
            Error::AlreadyClaimed => true,
            Error::AuthorDecodeFailure => true,
        }
    }
}

/// The persistent store of the two governed parameters.
#[derive(Clone, Copy, PartialEq, Eq, Structural, Debug)]
pub struct ParameterStore {
    pub difficulty: Difficulty,
    pub reward: Balance,
}

impl ParameterStore {
    pub fn new(difficulty: Difficulty, reward: Balance) -> (r: ParameterStore)
        ensures
            r.difficulty == difficulty,
            r.reward == reward,
    {
        ParameterStore { difficulty, reward }
    }
}

impl Default for ParameterStore {
    /// The genesis defaults: difficulty 1000, reward 1.
    fn default() -> (r: ParameterStore)
        ensures
            r.difficulty == (Difficulty { lo: 1000, hi: 0 }),
            r.reward == 1,
    {
        ParameterStore { difficulty: Difficulty { lo: 1000, hi: 0 }, reward: 1 }
    }
}

/// The slot transition made by one author claim: an empty slot fills and the
/// claim succeeds; a filled slot is left untouched and the claim fails.
pub open spec fn claim_spec(s: Option<AccountId>, account: AccountId) -> (
    Option<AccountId>,
    Result<(), Error>,
) {
    match s {
        Option::None => (Some(account), Ok(())),
        Option::Some(a) => (Some(a), Err(Error::AlreadyClaimed)),
    }
}

/// The single-block holder of "who mined this block": filled at most once
/// between consecutive finalizations, cleared unconditionally at
/// finalization.
#[derive(Clone, Copy, PartialEq, Eq, Debug)]
pub struct AuthorSlot {
    pub author: Option<AccountId>,
}

impl AuthorSlot {
    pub fn new() -> (r: AuthorSlot)
        ensures
            r.author is None,
    {
        AuthorSlot { author: None }
    }

    /// Records `account` as the block's author, failing without any change
    /// if an author is already recorded.
    pub fn claim(&mut self, account: AccountId) -> (r: Result<(), Error>)
        ensures
            (final(self).author, r) == claim_spec(old(self).author, account),
            old(self).author is None ==> r is Ok && final(self).author == Some(account),
            old(self).author is Some ==> r == Err::<(), Error>(Error::AlreadyClaimed) && final(self).author == old(self).author,
    {
        match self.author {
            Option::None => {
                self.author = Some(account);
                Ok(())
            },
            Option::Some(_) => Err(Error::AlreadyClaimed),
        }
    }

    /// Hands out the recorded author, if any, and unconditionally resets the
    /// slot; always succeeds.
    pub fn take(&mut self) -> (r: Option<AccountId>)
        ensures
            r == old(self).author,
            final(self).author is None,
    {
        let a = self.author;
        self.author = None;
        a
    }
}

/// The module's state as contracts speak of it: the two parameters, the
/// author slot's content, and the events emitted so far.
#[verifier::ext_equal]
pub ghost struct ModuleView {
    pub difficulty: Difficulty,
    pub reward: Balance,
    pub author: Option<AccountId>,
    pub events: Seq<Event>,
}

/// The state transition made by one privileged call: a non-root origin is
/// rejected before anything is touched; a root call overwrites the addressed
/// parameter and appends the matching event.
pub open spec fn apply_call_spec(s: ModuleView, call: Call, origin: Origin) -> (
    ModuleView,
    Result<(), Error>,
) {
    if !(origin is Root) {
        (s, Err(Error::Unauthorized))
    } else {
        match call {
            Call::SetDifficulty(v) => (
                ModuleView {
                    difficulty: v,
                    events: s.events.push(Event::DifficultyChanged(v)),
                    ..s
                },
                Ok(()),
            ),
            Call::SetReward(v) => (
                ModuleView { reward: v, events: s.events.push(Event::RewardChanged(v)), ..s },
                Ok(()),
            ),
        }
    }
}

/// The governance module: orchestrates the parameter store and the author
/// slot and keeps the emitted events.
pub struct GovernanceModule {
    pub params: ParameterStore,
    pub author_slot: AuthorSlot,
    pub events: Vec<Event>,
}

impl View for GovernanceModule {
    type V = ModuleView;

    open spec fn view(&self) -> ModuleView {
        ModuleView {
            difficulty: self.params.difficulty,
            reward: self.params.reward,
            author: self.author_slot.author,
            events: self.events@,
        }
    }
}

impl GovernanceModule {
    /// A fresh module, as configured at chain genesis: the given parameters,
    /// no recorded author, no events.
    pub fn new(difficulty: Difficulty, reward: Balance) -> (r: GovernanceModule)
        ensures
            r@.difficulty == difficulty,
            r@.reward == reward,
            r@.author is None,
            r@.events.len() == 0,
    {
        GovernanceModule {
            params: ParameterStore::new(difficulty, reward),
            author_slot: AuthorSlot::new(),
            events: Vec::new(),
        }
    }

    /// Pure accessor for the current difficulty.
    pub fn read_difficulty(&self) -> (r: Difficulty)
        ensures
            r == self@.difficulty,
    {
        self.params.difficulty
    }

    /// Pure accessor for the current reward.
    pub fn read_reward(&self) -> (r: Balance)
        ensures
            r == self@.reward,
    {
        self.params.reward
    }

    /// Root call to update the difficulty. A non-root origin changes nothing
    /// and emits nothing.
    pub fn set_difficulty(&mut self, origin: Origin, new_difficulty: Difficulty) -> (r: Result<
        (),
        Error,
    >)
        ensures
            (final(self)@, r) == apply_call_spec(
                old(self)@,
                Call::SetDifficulty(new_difficulty),
                origin,
            ),
            origin is Root ==> r is Ok && final(self)@.difficulty == new_difficulty && final(self)@.reward == old(self)@.reward && final(self)@.author == old(self)@.author && final(self)@.events == old(self)@.events.push(Event::DifficultyChanged(new_difficulty)),
            !(origin is Root) ==> r == Err::<(), Error>(Error::Unauthorized) && final(self)@ == old(
                self,
            )@,
    {
        match origin {
            Origin::Root => {
                self.params.difficulty = new_difficulty;
                self.events.push(Event::DifficultyChanged(new_difficulty));
                Ok(())
            },
            _ => Err(Error::Unauthorized),
        }
    }

    /// Root call to update the reward. A non-root origin changes nothing and
    /// emits nothing.
    pub fn set_reward(&mut self, origin: Origin, new_reward: Balance) -> (r: Result<(), Error>)
        ensures
            (final(self)@, r) == apply_call_spec(old(self)@, Call::SetReward(new_reward), origin),
            origin is Root ==> r is Ok && final(self)@.reward == new_reward && final(self)@.difficulty == old(self)@.difficulty && final(self)@.author == old(self)@.author
                && final(self)@.events == old(self)@.events.push(Event::RewardChanged(new_reward)),
            !(origin is Root) ==> r == Err::<(), Error>(Error::Unauthorized) && final(self)@ == old(
                self,
            )@,
    {
        match origin {
            Origin::Root => {
                self.params.reward = new_reward;
                self.events.push(Event::RewardChanged(new_reward));
                Ok(())
            },
            _ => Err(Error::Unauthorized),
        }
    }

    /// The single entry point by which the economic parameters change:
    /// routes a privileged call to the addressed parameter.
    pub fn apply_privileged_call(&mut self, call: Call, origin: Origin) -> (r: Result<(), Error>)
        ensures
            (final(self)@, r) == apply_call_spec(old(self)@, call, origin),
            !(origin is Root) ==> r == Err::<(), Error>(Error::Unauthorized) && final(self)@ == old(
                self,
            )@,
    {
        match call {
            Call::SetDifficulty(v) => self.set_difficulty(origin, v),
            Call::SetReward(v) => self.set_reward(origin, v),
        }
    }

    /// Applies the author inherent for this block: decodes the payload into
    /// an account and records it as the block's author. A payload that does
    /// not decode, or a second claim within the block, is a fatal error and
    /// leaves the state untouched.
    pub fn apply_author_inherent(&mut self, raw_author_bytes: &Vec<u8>) -> (r: Result<(), Error>)
        ensures
            raw_author_bytes@.len() < 32 ==> r == Err::<(), Error>(Error::AuthorDecodeFailure)
                && final(self)@ == old(self)@,
            raw_author_bytes@.len() >= 32 && old(self)@.author is None ==> r is Ok
                && (final(self)@.author matches Some(a) && a@ == raw_author_bytes@.subrange(0, 32))
                && final(self)@.difficulty == old(self)@.difficulty
                && final(self)@.reward == old(self)@.reward
                && final(self)@.events == old(self)@.events,
            raw_author_bytes@.len() >= 32 && old(self)@.author is Some ==> r == Err::<(), Error>(
                Error::AlreadyClaimed,
            ) && final(self)@ == old(self)@,
    {
        match decode_account_id(raw_author_bytes) {
            Option::None => Err(Error::AuthorDecodeFailure),
            Option::Some(bytes) => {
                let account = AccountId::new(bytes);
                self.author_slot.claim(account)
            },
        }
    }

    /// Ends the block: hands the recorded author (if any) its reward as
    /// newly-issued balance, exactly once, and unconditionally clears the
    /// author slot. Never fails, whether or not an author was recorded; the
    /// parameters and the events are untouched.
    pub fn on_finalize(&mut self, ledger: &mut Ledger)
        requires
            old(ledger).wf(),
        ensures
            final(ledger).wf(),
            final(self)@.author is None,
            final(self)@.difficulty == old(self)@.difficulty,
            final(self)@.reward == old(self)@.reward,
            final(self)@.events == old(self)@.events,
            old(self)@.author matches Some(a) ==> final(ledger).balance_of(a@) == sat_add(
                old(ledger).balance_of(a@),
                old(self)@.reward,
            ) && forall|k: Seq<u8>|
                k != a@ ==> #[trigger] final(ledger).balance_of(k) == old(ledger).balance_of(k),
            old(self)@.author is None ==> *final(ledger) == *old(ledger),
    {
        match self.author_slot.take() {
            Option::Some(author) => {
                let reward = self.params.reward;
                ledger.deposit_creating(&author, reward);
            },
            Option::None => {},
        }
    }
}

/// Relies on parity_scale_codec's `Decode` for `[u8; 32]` over a byte-slice
/// input: decoding succeeds exactly when at least 32 bytes are available,
/// yields the first 32 bytes, and leaves anything beyond them unread.
#[verifier::external_body]
fn decode_account_id(raw: &Vec<u8>) -> (r: Option<[u8; 32]>)
    ensures
        r is Some <==> raw@.len() >= 32,
        r matches Some(bytes) ==> bytes@ == raw@.subrange(0, 32),
{
    <[u8; 32]>::decode(&mut raw.as_slice()).ok()
}

/// The eight-byte key (the ASCII bytes of `rewards_`) under which the host's
/// inherent pipeline carries the author payload.
pub open spec fn inherent_identifier_spec() -> Seq<u8> {
    seq![114u8, 101u8, 119u8, 97u8, 114u8, 100u8, 115u8, 95u8]
}

/// The identifier the host must key the author inherent under.
pub fn inherent_identifier() -> (r: [u8; 8])
    ensures
        r@ == inherent_identifier_spec(),
{
    let id: [u8; 8] = [114u8, 101u8, 119u8, 97u8, 114u8, 100u8, 115u8, 95u8];
    proof {
        assert(id@ =~= inherent_identifier_spec());
    }
    id
}

/// The state after a whole sequence of privileged calls has been applied in
/// order, failed ones included (each failed call leaves the state as it was).
pub open spec fn apply_calls_spec(s: ModuleView, calls: Seq<(Call, Origin)>) -> ModuleView
    decreases calls.len(),
{
    if calls.len() == 0 {
        s
    } else {
        apply_calls_spec(apply_call_spec(s, calls[0].0, calls[0].1).0, calls.drop_first())
    }
}

/// The value written by the last successful privileged `set_reward` among
/// `calls`, or `prior` when no such call occurs.
pub open spec fn last_set_reward(calls: Seq<(Call, Origin)>, prior: Balance) -> Balance
    decreases calls.len(),
{
    if calls.len() == 0 {
        prior
    } else {
        let head_prior = if calls[0].1 is Root && calls[0].0 is SetReward {
            calls[0].0->SetReward_0
        } else {
            prior
        };
        last_set_reward(calls.drop_first(), head_prior)
    }
}

/// For every sequence of privileged calls within one block, the reward that
/// finalization observes is the value set by the last successful
/// `set_reward` call in that sequence, or the prior value when none
/// occurred: the last write wins.
pub proof fn lemma_reward_last_write_wins(s: ModuleView, calls: Seq<(Call, Origin)>)
    ensures
        apply_calls_spec(s, calls).reward == last_set_reward(calls, s.reward),
    decreases calls.len(),
{
    if calls.len() > 0 {
        let s1 = apply_call_spec(s, calls[0].0, calls[0].1).0;
        lemma_reward_last_write_wins(s1, calls.drop_first());
    }
}

/// Privileged parameter calls and the author slot touch disjoint state: no
/// sequence of privileged calls, wherever it stands in the block, moves the
/// recorded author.
pub proof fn lemma_privileged_calls_leave_author(s: ModuleView, calls: Seq<(Call, Origin)>)
    ensures
        apply_calls_spec(s, calls).author == s.author,
    decreases calls.len(),
{
    if calls.len() > 0 {
        let s1 = apply_call_spec(s, calls[0].0, calls[0].1).0;
        lemma_privileged_calls_leave_author(s1, calls.drop_first());
    }
}

/// A privileged call from a non-root origin is rejected as `Unauthorized`:
/// it never changes the stored state and never emits an event.
pub proof fn lemma_non_root_changes_nothing(s: ModuleView, call: Call, origin: Origin)
    requires
        !(origin is Root),
    ensures
        apply_call_spec(s, call, origin).0 == s,
        apply_call_spec(s, call, origin).1 == Err::<(), Error>(Error::Unauthorized),
{
}

/// Claiming the block's authorship twice within one block: the first claim
/// fills the empty slot with its account and succeeds; the second fails with
/// `AlreadyClaimed` and leaves the first account in place, neither
/// overwritten nor cleared.
pub proof fn lemma_claim_twice(a: AccountId, b: AccountId)
    ensures
        claim_spec(Option::<AccountId>::None, a) == (Some(a), Ok::<(), Error>(())),
        claim_spec(claim_spec(Option::<AccountId>::None, a).0, b) == (
            Some(a),
            Err::<(), Error>(Error::AlreadyClaimed),
        ),
{
}

} // verus!

