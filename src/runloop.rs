//! The state that the periodic tick keeps between runs: the configuration last
//! loaded, the fingerprint of the file it came from, and the lock state of each
//! user. A tick reloads the configuration when the fingerprint changes, then
//! asks for an enforcement action for every user whose lock state differs from
//! what the schedule wants; a lock state only changes once its action succeeded.
use vstd::prelude::*;

use crate::config::{Config, UserConfig};
use crate::schedule::{is_open, local_now, schedule_is_open, LocalTime};

verus! {

/// What identifies one version of the configuration file cheaply: its
/// modification time and its length in bytes.
#[derive(Clone, Copy, Debug, PartialEq, Eq, Structural)]
pub struct Fingerprint {
    pub modified_secs: i64,
    pub modified_nanos: u32,
    pub len: u64,
}

/// The lock state of one user as last enforced.
#[derive(Clone, Copy, Debug, PartialEq, Eq, Structural)]
pub enum LockState {
    /// Nothing has been enforced yet; it matches no wanted state.
    Unknown,
    Locked,
    Unlocked,
}

/// Why the configuration could not be loaded.
#[derive(Clone, Copy, Debug, PartialEq, Eq, Structural)]
pub enum ConfigLoadError {
    Io,
    Malformed,
}

/// One enforcement action to perform: lock or unlock a user.
#[derive(Clone, Debug)]
pub struct Enforcement {
    pub username: String,
    pub locked: bool,
}

/// The state a tick works on. It is owned by the tick while it runs.
pub struct RunState {
    config: Option<Config>,
    fingerprint: Option<Fingerprint>,
    user_state: Vec<LockState>,
}

pub open spec fn lock_state_for(locked: bool) -> LockState {
    if locked {
        LockState::Locked
    } else {
        LockState::Unlocked
    }
}

/// The state a user's schedule wants at `now`.
pub open spec fn desired_lock(now: LocalTime, user: UserConfig) -> LockState {
    lock_state_for(!schedule_is_open(now, user.schedule))
}

pub open spec fn enforcement_view(es: Seq<Enforcement>) -> Seq<(Seq<char>, bool)> {
    es.map_values(|e: Enforcement| (e.username@, e.locked))
}

/// The actions owed for the first `n` users, in order: one for each user
/// whose lock state differs from the one its schedule wants.
pub open spec fn planned(state: RunState, users: Seq<UserConfig>, now: LocalTime, n: int) -> Seq<(Seq<char>, bool)>
    decreases n,
{
    if n <= 0 {
        Seq::empty()
    } else {
        let prev = planned(state, users, now, n - 1);
        let u = users[n - 1];
        if state.lock_of(u.username@) != desired_lock(now, u) {
            prev.push((u.username@, !schedule_is_open(now, u.schedule)))
        } else {
            prev
        }
    }
}

/// After a successful reload of `config` from a file with fingerprint `fp`:
/// both are cached, users that stay keep their lock state, new users start
/// `Unknown`, and users that left are forgotten.
pub open spec fn reloaded(before: RunState, after: RunState, config: Config, fp: Option<Fingerprint>) -> bool {
    &&& after.current_config() == Some(config)
    &&& after.current_fingerprint() == fp
    &&& forall|k: Seq<char>| #[trigger]
        after.lock_of(k) == if config.has_user(k) && before.tracks(k) {
            before.lock_of(k)
        } else {
            LockState::Unknown
        }
}

/// The lock-state flags of the actions in `plan` that name `username`, in order.
pub open spec fn actions_for(plan: Seq<(Seq<char>, bool)>, username: Seq<char>) -> Seq<bool>
    decreases plan.len(),
{
    if plan.len() == 0 {
        Seq::empty()
    } else if plan.last().0 == username {
        actions_for(plan.drop_last(), username).push(plan.last().1)
    } else {
        actions_for(plan.drop_last(), username)
    }
}

/// After an enforcement action for `username` reported `succeeded`: only a
/// success changes the user's lock state, and nothing else changes.
pub open spec fn recorded(
    before: RunState,
    after: RunState,
    username: Seq<char>,
    locked: bool,
    succeeded: bool,
) -> bool {
    &&& after.current_config() == before.current_config()
    &&& after.current_fingerprint() == before.current_fingerprint()
    &&& forall|k: Seq<char>| #[trigger]
        after.lock_of(k) == if succeeded && k == username && before.tracks(k) {
            lock_state_for(locked)
        } else {
            before.lock_of(k)
        }
}

impl RunState {
    pub closed spec fn current_config(&self) -> Option<Config> {
        self.config
    }

    pub closed spec fn current_fingerprint(&self) -> Option<Fingerprint> {
        self.fingerprint
    }

    /// The lock state of a user; `Unknown` for one not in the configuration.
    pub closed spec fn lock_of(&self, name: Seq<char>) -> LockState {
        match self.config {
            Some(c) => if c.has_user(name) {
                let i = choose|i: int|
                    0 <= i < c.user_config@.len() && #[trigger] c.user_config@[i].username@ == name;
                self.user_state@[i]
            } else {
                LockState::Unknown
            },
            None => LockState::Unknown,
        }
    }

    /// The cached configuration is well formed and holds one lock state per user.
    pub closed spec fn wf(&self) -> bool {
        match self.config {
            Some(c) => c.wf() && self.user_state@.len() == c.user_config@.len(),
            None => self.user_state@.len() == 0,
        }
    }

    /// The cached configuration holds a user of that name.
    pub open spec fn tracks(&self, name: Seq<char>) -> bool {
        match self.current_config() {
            Some(c) => c.has_user(name),
            None => false,
        }
    }

    /// A reload is due when nothing is cached yet or the file's fingerprint
    /// differs from the cached one.
    pub open spec fn reload_needed(&self, current: Option<Fingerprint>) -> bool {
        self.current_config() is None || self.current_fingerprint() != current
    }

    /// The actions that a tick at `now` owes.
    pub open spec fn plan(&self, now: LocalTime) -> Seq<(Seq<char>, bool)> {
        match self.current_config() {
            Some(c) => planned(*self, c.user_config@, now, c.user_config@.len() as int),
            None => Seq::empty(),
        }
    }

    /// A name the cached configuration does not hold has lock state `Unknown`.
    pub proof fn lemma_untracked_is_unknown(&self, name: Seq<char>)
        ensures
            !self.tracks(name) ==> self.lock_of(name) == LockState::Unknown,
    {
    }

    /// A well-formed run state caches a configuration whose usernames are unique.
    pub proof fn lemma_cached_config_wf(&self)
        requires
            self.wf(),
        ensures
            self.current_config() matches Some(c) ==> c.wf(),
    {
    }

    /// Each tracked user is owed exactly one action, with the state its
    /// schedule wants, when its lock state differs from that state (an
    /// `Unknown` one always does), and none when it matches.
    pub proof fn lemma_one_action_per_user(&self, now: LocalTime, i: int)
        requires
            self.wf(),
            self.current_config() is Some,
            0 <= i < self.current_config()->0.user_config@.len(),
        ensures
            ({
                let u = self.current_config()->0.user_config@[i];
                actions_for(self.plan(now), u.username@) == if self.lock_of(u.username@) != desired_lock(now, u) {
                    seq![!schedule_is_open(now, u.schedule)]
                } else {
                    Seq::<bool>::empty()
                }
            }),
    {
        let c = self.config->0;
        self.lemma_actions_prefix(now, i, c.user_config@.len() as int);
    }

    proof fn lemma_actions_prefix(&self, now: LocalTime, i: int, n: int)
        requires
            self.wf(),
            self.config is Some,
            0 <= i < self.config->0.user_config@.len(),
            0 <= n <= self.config->0.user_config@.len(),
        ensures
            ({
                let users = self.config->0.user_config@;
                let u = users[i];
                actions_for(planned(*self, users, now, n), u.username@) == if i < n && self.lock_of(u.username@)
                    != desired_lock(now, u) {
                    seq![!schedule_is_open(now, u.schedule)]
                } else {
                    Seq::<bool>::empty()
                }
            }),
        decreases n,
    {
        let users = self.config->0.user_config@;
        let name = users[i].username@;
        if n > 0 {
            self.lemma_actions_prefix(now, i, n - 1);
            let prev = planned(*self, users, now, n - 1);
            let v = users[n - 1];
            let item = (v.username@, !schedule_is_open(now, v.schedule));
            assert(prev.push(item).drop_last() =~= prev);
            if n - 1 != i {
                assert(v.username@ != name);
            }
        }
    }

    proof fn lemma_lock_at(&self, i: int)
        requires
            self.wf(),
            self.config is Some,
            0 <= i < self.config->0.user_config@.len(),
        ensures
            self.lock_of(self.config->0.user_config@[i].username@) == self.user_state@[i],
    {
        let c = self.config->0;
        let name = c.user_config@[i].username@;
        assert(c.has_user(name));
        let j = choose|j: int| 0 <= j < c.user_config@.len() && #[trigger] c.user_config@[j].username@ == name;
        assert(j == i);
    }

    pub fn new() -> (r: RunState)
        ensures
            r.wf(),
            r.current_config() is None,
            r.current_fingerprint() is None,
            forall|k: Seq<char>| #[trigger] r.lock_of(k) == LockState::Unknown,
    {
        RunState { config: None, fingerprint: None, user_state: Vec::new() }
    }

    pub fn config(&self) -> (r: Option<&Config>)
        ensures
            r is None <==> self.current_config() is None,
            r matches Some(c) ==> *c == self.current_config()->0,
    {
        self.config.as_ref()
    }

    pub fn fingerprint(&self) -> (r: Option<Fingerprint>)
        ensures
            r == self.current_fingerprint(),
    {
        self.fingerprint
    }

    pub fn lock_state(&self, username: &str) -> (r: LockState)
        requires
            self.wf(),
        ensures
            r == self.lock_of(username@),
    {
        match &self.config {
            Some(c) => match c.find_user(username) {
                Some(i) => {
                    proof {
                        self.lemma_lock_at(i as int);
                    }
                    self.user_state[i]
                },
                None => LockState::Unknown,
            },
            None => LockState::Unknown,
        }
    }

    /// Whether the configuration must be loaded, given the fingerprint of the
    /// file now (`None` where there is no file).
    pub fn needs_reload(&self, current: &Option<Fingerprint>) -> (r: bool)
        ensures
            r == self.reload_needed(*current),
    {
        if self.config.is_none() {
            return true;
        }
        match (&self.fingerprint, current) {
            (Some(a), Some(b)) => *a != *b,
            (None, None) => false,
            _ => true,
        }
    }

    /// Takes the outcome of a load. On success the configuration and the
    /// fingerprint are replaced together; on failure nothing changes, and
    /// the last configuration that loaded stays in force.
    pub fn apply_reload(&mut self, outcome: Result<Config, ConfigLoadError>, current: Option<Fingerprint>)
        requires
            old(self).wf(),
            outcome matches Ok(c) ==> c.wf(),
        ensures
            final(self).wf(),
            outcome matches Ok(c) ==> reloaded(*old(self), *final(self), c, current),
            outcome is Err ==> *final(self) == *old(self),
    {
        match outcome {
            Err(_) => {},
            Ok(c) => {
                let mut states: Vec<LockState> = Vec::new();
                let mut i: usize = 0;
                while i < c.user_config.len()
                    invariant
                        self.wf(),
                        *self == *old(self),
                        i <= c.user_config@.len(),
                        states@.len() == i,
                        forall|j: int| 0 <= j < i ==> #[trigger] states@[j] == self.lock_of(c.user_config@[j].username@),
                    decreases c.user_config@.len() - i,
                {
                    let s = self.lock_state(c.user_config[i].username.as_str());
                    states.push(s);
                    i = i + 1;
                }
                let ghost before = *self;
                self.config = Some(c);
                self.fingerprint = current;
                self.user_state = states;
                assert forall|k: Seq<char>| #[trigger]
                    self.lock_of(k) == if c.has_user(k) && before.tracks(k) {
                        before.lock_of(k)
                    } else {
                        LockState::Unknown
                    } by {
                    if c.has_user(k) {
                        let j = choose|j: int| 0 <= j < c.user_config@.len() && #[trigger] c.user_config@[j].username@ == k;
                        assert(states@[j] == before.lock_of(c.user_config@[j].username@));
                    }
                }
            },
        }
    }

    /// The enforcement actions that a tick at `now` owes: for each user, in
    /// configuration order, whose lock state differs from the one wanted.
    pub fn pending_enforcements(&self, now: &LocalTime) -> (r: Vec<Enforcement>)
        requires
            self.wf(),
        ensures
            enforcement_view(r@) == self.plan(*now),
    {
        let mut r: Vec<Enforcement> = Vec::new();
        match &self.config {
            None => {
                assert(enforcement_view(r@) =~= Seq::empty());
            },
            Some(c) => {
                let mut i: usize = 0;
                while i < c.user_config.len()
                    invariant
                        self.wf(),
                        self.config == Some(*c),
                        i <= c.user_config@.len(),
                        enforcement_view(r@) == planned(*self, c.user_config@, *now, i as int),
                    decreases c.user_config@.len() - i,
                {
                    let u = &c.user_config[i];
                    let locked = !is_open(*now, &u.schedule);
                    let desired = if locked {
                        LockState::Locked
                    } else {
                        LockState::Unlocked
                    };
                    proof {
                        self.lemma_lock_at(i as int);
                    }
                    let ghost before = r@;
                    if self.user_state[i] != desired {
                        r.push(Enforcement { username: u.username.clone(), locked });
                        assert(enforcement_view(r@) =~= enforcement_view(before).push((u.username@, locked)));
                    }
                    i = i + 1;
                }
            },
        }
        r
    }

    /// The enforcement actions owed at the current local time.
    pub fn pending_enforcements_now(&self) -> (r: Vec<Enforcement>)
        requires
            self.wf(),
        ensures
            exists|now: LocalTime| now.wf() && enforcement_view(r@) == #[trigger] self.plan(now),
    {
        let now = local_now();
        self.pending_enforcements(&now)
    }

    /// Records what an enforcement action reported. Only a success moves the
    /// user's lock state; after a failure the next tick asks again.
    pub fn record_enforcement(&mut self, username: &str, locked: bool, succeeded: bool)
        requires
            old(self).wf(),
        ensures
            final(self).wf(),
            recorded(*old(self), *final(self), username@, locked, succeeded),
    {
        if !succeeded {
            return;
        }
        let index = match &self.config {
            Some(c) => c.find_user(username),
            None => None,
        };
        if let Some(i) = index {
            let ghost before = *self;
            let state = if locked {
                LockState::Locked
            } else {
                LockState::Unlocked
            };
            self.user_state.set(i, state);
            let ghost c = self.config->0;
            assert forall|k: Seq<char>| #[trigger]
                self.lock_of(k) == if k == username@ && c.has_user(k) {
                    lock_state_for(locked)
                } else {
                    before.lock_of(k)
                } by {
                if c.has_user(k) {
                    let j = choose|j: int| 0 <= j < c.user_config@.len() && #[trigger] c.user_config@[j].username@ == k;
                    self.lemma_lock_at(j);
                    before.lemma_lock_at(j);
                    if k == username@ {
                        assert(j == i);
                    } else {
                        assert(j != i);
                    }
                }
            }
        }
    }
}

/// After a reload that cached fingerprint `fp`, a reload is due again exactly
/// when the file's fingerprint is no longer `fp`: ticks on an unchanged file
/// do not load it again.
pub proof fn lemma_reload_exactly_on_change(
    before: RunState,
    after: RunState,
    config: Config,
    fp: Option<Fingerprint>,
    later: Option<Fingerprint>,
)
    requires
        reloaded(before, after, config, fp),
    ensures
        !after.reload_needed(fp),
        after.reload_needed(later) <==> later != fp,
{
}

/// Enforcement does not touch what decides a reload, and a failed load keeps
/// the cached configuration and fingerprint.
pub proof fn lemma_reload_decision_kept(
    before: RunState,
    after: RunState,
    username: Seq<char>,
    locked: bool,
    succeeded: bool,
    current: Option<Fingerprint>,
)
    requires
        recorded(before, after, username, locked, succeeded),
    ensures
        after.reload_needed(current) == before.reload_needed(current),
{
}

/// Retry until success. Take the `i`-th configured user, whose lock state
/// differs from the one its schedule wants at `now` (`locked`). An enforcement
/// that fails leaves its lock state, and so the actions owed, as they were:
/// the next tick owes exactly one action for it, with the same state. The
/// lock state takes the wanted value only with the call that succeeds, and
/// after it no action is owed for the user while that state is wanted.
pub proof fn lemma_retry_until_success(
    first: RunState,
    second: RunState,
    third: RunState,
    i: int,
    now: LocalTime,
)
    requires
        first.wf(),
        second.wf(),
        third.wf(),
        first.current_config() is Some,
        0 <= i < first.current_config()->0.user_config@.len(),
        ({
            let u = first.current_config()->0.user_config@[i];
            &&& first.lock_of(u.username@) != desired_lock(now, u)
            &&& recorded(first, second, u.username@, !schedule_is_open(now, u.schedule), false)
            &&& recorded(second, third, u.username@, !schedule_is_open(now, u.schedule), true)
        }),
    ensures
        ({
            let u = first.current_config()->0.user_config@[i];
            let locked = !schedule_is_open(now, u.schedule);
            &&& second.lock_of(u.username@) == first.lock_of(u.username@)
            &&& second.plan(now) == first.plan(now)
            &&& actions_for(second.plan(now), u.username@) == seq![locked]
            &&& third.lock_of(u.username@) == lock_state_for(locked)
            &&& actions_for(third.plan(now), u.username@) == Seq::<bool>::empty()
        }),
{
    let c = first.current_config()->0;
    assert forall|n: int| 0 <= n <= c.user_config@.len() implies #[trigger] planned(second, c.user_config@, now, n)
        == planned(first, c.user_config@, now, n) by {
        lemma_planned_same_locks(first, second, c.user_config@, now, n);
    }
    first.lemma_one_action_per_user(now, i);
    second.lemma_one_action_per_user(now, i);
    third.lemma_one_action_per_user(now, i);
}

proof fn lemma_planned_same_locks(a: RunState, b: RunState, users: Seq<UserConfig>, now: LocalTime, n: int)
    requires
        forall|k: Seq<char>| #[trigger] a.lock_of(k) == b.lock_of(k),
    ensures
        planned(a, users, now, n) == planned(b, users, now, n),
    decreases n,
{
    if n > 0 {
        lemma_planned_same_locks(a, b, users, now, n - 1);
        assert(a.lock_of(users[n - 1].username@) == b.lock_of(users[n - 1].username@));
    }
}

} // verus!
