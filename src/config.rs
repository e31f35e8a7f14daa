//! The persisted configuration: users, their weekly schedules, and the rules
//! that a configuration must meet before it is written.
use vstd::prelude::*;

use crate::text::{str_eq, to_string};

verus! {

/// Minutes in one day.
pub const MINUTES_PER_DAY: u32 = 1440;

/// A recurring point within a week: days after Sunday, hour and minute.
#[derive(Clone, Copy, Debug, PartialEq, Eq, Structural)]
pub struct Instant {
    pub weekday: u8,
    pub hour: u8,
    pub minute: u8,
}

impl Instant {
    /// Each field lies in its range: weekday 0..=6, hour 0..=23, minute 0..=59.
    pub open spec fn wf(&self) -> bool {
        self.weekday < 7 && self.hour < 24 && self.minute < 60
    }

    /// Minutes from the start of the week (Sunday 00:00) to this instant.
    pub open spec fn minute_of_week(&self) -> int {
        self.weekday * 1440 + self.hour * 60 + self.minute
    }

    pub fn is_valid(&self) -> (r: bool)
        ensures
            r == self.wf(),
    {
        self.weekday < 7 && self.hour < 24 && self.minute < 60
    }

    pub fn minutes_from_start_of_week(&self) -> (r: u32)
        ensures
            r == self.minute_of_week(),
    {
        self.weekday as u32 * MINUTES_PER_DAY + self.hour as u32 * 60 + self.minute as u32
    }
}

/// One weekly-recurring window during which a user may use the computer.
#[derive(Clone, Debug)]
pub struct OpenPeriod {
    pub start: Instant,
    pub end: Instant,
    pub note: String,
}

/// Why an open period cannot be stored.
#[derive(Clone, Copy, Debug, PartialEq, Eq, Structural)]
pub enum PeriodError {
    /// The start or the end has a field outside its range.
    InstantOutOfRange,
    /// The end does not fall strictly after the start within the week.
    EndNotAfterStart,
}

impl OpenPeriod {
    /// Both ends are in range and the end falls strictly after the start.
    pub open spec fn valid(&self) -> bool {
        &&& self.start.wf()
        &&& self.end.wf()
        &&& self.start.minute_of_week() < self.end.minute_of_week()
    }

    /// Length of the period in minutes, as resolved within one week.
    pub open spec fn duration(&self) -> int {
        self.end.minute_of_week() - self.start.minute_of_week()
    }

    pub fn validate(&self) -> (r: Result<(), PeriodError>)
        ensures
            r is Ok <==> self.valid(),
            r == Err::<(), PeriodError>(PeriodError::InstantOutOfRange) <==> !(self.start.wf()
                && self.end.wf()),
    {
        if !self.start.is_valid() || !self.end.is_valid() {
            Err(PeriodError::InstantOutOfRange)
        } else if self.start.minutes_from_start_of_week() >= self.end.minutes_from_start_of_week() {
            Err(PeriodError::EndNotAfterStart)
        } else {
            Ok(())
        }
    }
}

/// The open periods of one user; their order carries no meaning.
#[derive(Clone, Debug)]
pub struct Schedule {
    pub open_periods: Vec<OpenPeriod>,
}

impl Schedule {
    pub open spec fn valid(&self) -> bool {
        forall|i: int| 0 <= i < self.open_periods@.len() ==> #[trigger] self.open_periods@[i].valid()
    }
}

/// One tracked user. The passwords are only carried while a user is created:
/// they are kept in secret storage, never in the configuration file.
#[derive(Clone, Debug)]
pub struct UserConfig {
    pub username: String,
    pub normal_password: Option<String>,
    pub lockdown_password: Option<String>,
    pub schedule: Schedule,
}

/// All tracked users, keyed by username.
#[derive(Clone, Debug)]
pub struct Config {
    pub user_config: Vec<UserConfig>,
}

/// Where a configuration fails validation: the user, the period, and why.
#[derive(Clone, Copy, Debug, PartialEq, Eq, Structural)]
pub struct ScheduleValidationError {
    pub user_index: usize,
    pub period_index: usize,
    pub reason: PeriodError,
}

/// Why a user cannot be added to the configuration.
#[derive(Clone, Copy, Debug, PartialEq, Eq, Structural)]
pub enum CreateUserError {
    /// A user of that name is already configured.
    AlreadyExists,
    /// The normal or the lockdown password is missing.
    NoPasswords,
}

impl Config {
    /// Usernames are unique: the configuration is a mapping from them.
    pub open spec fn wf(&self) -> bool {
        forall|i: int, j: int|
            0 <= i < self.user_config@.len() && 0 <= j < self.user_config@.len() && i != j
                ==> #[trigger] self.user_config@[i].username@ != #[trigger] self.user_config@[j].username@
    }

    pub open spec fn has_user(&self, name: Seq<char>) -> bool {
        exists|i: int| 0 <= i < self.user_config@.len() && #[trigger] self.user_config@[i].username@ == name
    }

    /// Every period of every user is valid.
    pub open spec fn valid(&self) -> bool {
        forall|i: int| 0 <= i < self.user_config@.len() ==> #[trigger] self.user_config@[i].schedule.valid()
    }

    /// An empty configuration.
    pub fn new() -> (r: Config)
        ensures
            r.wf(),
            r.user_config@.len() == 0,
    {
        Config { user_config: Vec::new() }
    }

    /// A configuration is new when it tracks no user.
    pub fn is_new(&self) -> (r: bool)
        ensures
            r == (self.user_config@.len() == 0),
    {
        self.user_config.len() == 0
    }

    /// The position of the user of that name, if there is one.
    pub fn find_user(&self, name: &str) -> (r: Option<usize>)
        ensures
            r is None <==> !self.has_user(name@),
            r matches Some(i) ==> i < self.user_config@.len() && self.user_config@[i as int].username@
                == name@,
    {
        let mut i: usize = 0;
        while i < self.user_config.len()
            invariant
                i <= self.user_config@.len(),
                forall|j: int| 0 <= j < i ==> #[trigger] self.user_config@[j].username@ != name@,
            decreases self.user_config@.len() - i,
        {
            if str_eq(self.user_config[i].username.as_str(), name) {
                return Some(i);
            }
            i = i + 1;
        }
        None
    }

    pub fn contains_user(&self, name: &str) -> (r: bool)
        ensures
            r == self.has_user(name@),
    {
        self.find_user(name).is_some()
    }

    /// Checks that a new user can be added: its name is not yet taken and both
    /// passwords are given. On success returns (normal, lockdown) passwords.
    pub fn check_new_user(&self, new_user: &UserConfig) -> (r: Result<(String, String), CreateUserError>)
        ensures
            r == Err::<(String, String), CreateUserError>(CreateUserError::AlreadyExists)
                <==> self.has_user(new_user.username@),
            r == Err::<(String, String), CreateUserError>(CreateUserError::NoPasswords) <==> (
            !self.has_user(new_user.username@) && (new_user.normal_password is None
                || new_user.lockdown_password is None)),
            r matches Ok(p) ==> new_user.normal_password == Some(p.0) && new_user.lockdown_password
                == Some(p.1),
    {
        if self.contains_user(new_user.username.as_str()) {
            return Err(CreateUserError::AlreadyExists);
        }
        match (&new_user.normal_password, &new_user.lockdown_password) {
            (Some(normal), Some(lockdown)) => Ok((normal.clone(), lockdown.clone())),
            _ => Err(CreateUserError::NoPasswords),
        }
    }

    /// Adds a new user, as `check_new_user` allows, with its passwords dropped,
    /// and returns the passwords. On failure the configuration is unchanged.
    pub fn create_user(&mut self, new_user: UserConfig) -> (r: Result<(String, String), CreateUserError>)
        requires
            old(self).wf(),
        ensures
            final(self).wf(),
            r == Err::<(String, String), CreateUserError>(CreateUserError::AlreadyExists)
                <==> old(self).has_user(new_user.username@),
            r == Err::<(String, String), CreateUserError>(CreateUserError::NoPasswords) <==> (
            !old(self).has_user(new_user.username@) && (new_user.normal_password is None
                || new_user.lockdown_password is None)),
            r is Err ==> *final(self) == *old(self),
            r matches Ok(p) ==> new_user.normal_password == Some(p.0) && new_user.lockdown_password
                == Some(p.1) && final(self).user_config@ == old(self).user_config@.push(
                (UserConfig { normal_password: None, lockdown_password: None, ..new_user }),
            ),
    {
        let passwords = self.check_new_user(&new_user);
        if passwords.is_ok() {
            self.add_user(new_user);
        }
        passwords
    }

    /// Adds a user whose name is not yet taken. Its passwords are dropped, so
    /// that they never reach the configuration file.
    pub fn add_user(&mut self, new_user: UserConfig)
        requires
            old(self).wf(),
            !old(self).has_user(new_user.username@),
        ensures
            final(self).wf(),
            final(self).user_config@ == old(self).user_config@.push(
                (UserConfig { normal_password: None, lockdown_password: None, ..new_user }),
            ),
    {
        let stored = UserConfig {
            username: new_user.username,
            normal_password: None,
            lockdown_password: None,
            schedule: new_user.schedule,
        };
        self.user_config.push(stored);
        assert forall|i: int, j: int|
            0 <= i < self.user_config@.len() && 0 <= j < self.user_config@.len() && i != j
                implies #[trigger] self.user_config@[i].username@
                != #[trigger] self.user_config@[j].username@ by {
            let n = old(self).user_config@.len();
            if i < n && j < n {
                assert(old(self).user_config@[i] == self.user_config@[i]);
                assert(old(self).user_config@[j] == self.user_config@[j]);
            } else if i < n {
                assert(old(self).user_config@[i] == self.user_config@[i]);
            } else {
                assert(old(self).user_config@[j] == self.user_config@[j]);
            }
        }
    }
}

/// Checks one schedule; on failure, the index of the first invalid period and why.
pub fn validate_schedule(schedule: &Schedule) -> (r: Result<(), (usize, PeriodError)>)
    ensures
        r is Ok <==> schedule.valid(),
        r matches Err(e) ==> e.0 < schedule.open_periods@.len() && !schedule.open_periods@[e.0 as int].valid()
            && (e.1 == PeriodError::InstantOutOfRange <==> !(schedule.open_periods@[e.0 as int].start.wf()
            && schedule.open_periods@[e.0 as int].end.wf())) && forall|j: int|
            0 <= j < e.0 ==> #[trigger] schedule.open_periods@[j].valid(),
{
    let mut i: usize = 0;
    while i < schedule.open_periods.len()
        invariant
            i <= schedule.open_periods@.len(),
            forall|j: int| 0 <= j < i ==> #[trigger] schedule.open_periods@[j].valid(),
        decreases schedule.open_periods@.len() - i,
    {
        match schedule.open_periods[i].validate() {
            Ok(()) => {},
            Err(e) => {
                return Err((i, e));
            },
        }
        i = i + 1;
    }
    Ok(())
}

/// Checks a whole configuration before it is written: every period of every
/// user must be valid, else the write is refused as a whole. An error names
/// the first invalid period of the first user that has one.
pub fn validate_config(config: &Config) -> (r: Result<(), ScheduleValidationError>)
    ensures
        r is Ok <==> config.valid(),
        r matches Err(e) ==> {
            let periods = config.user_config@[e.user_index as int].schedule.open_periods@;
            &&& e.user_index < config.user_config@.len()
            &&& e.period_index < periods.len()
            &&& !periods[e.period_index as int].valid()
            &&& (e.reason == PeriodError::InstantOutOfRange <==> !(periods[e.period_index as int].start.wf()
                && periods[e.period_index as int].end.wf()))
            &&& forall|j: int| 0 <= j < e.period_index ==> #[trigger] periods[j].valid()
            &&& forall|j: int| 0 <= j < e.user_index ==> #[trigger] config.user_config@[j].schedule.valid()
        },
{
    let mut i: usize = 0;
    while i < config.user_config.len()
        invariant
            i <= config.user_config@.len(),
            forall|j: int| 0 <= j < i ==> #[trigger] config.user_config@[j].schedule.valid(),
        decreases config.user_config@.len() - i,
    {
        match validate_schedule(&config.user_config[i].schedule) {
            Ok(()) => {},
            Err((p, reason)) => {
                return Err(ScheduleValidationError { user_index: i, period_index: p, reason });
            },
        }
        i = i + 1;
    }
    Ok(())
}

/// The greeting of the control page: a welcome before any user is set up.
pub fn greeting(config: &Config) -> (r: String)
    ensures
        r@ == if config.user_config@.len() == 0 {
            "Welcome!"@
        } else {
            "Hello again!"@
        },
{
    if config.is_new() {
        to_string("Welcome!")
    } else {
        to_string("Hello again!")
    }
}

/// The configuration file of an installed system.
pub fn get_config_path() -> (r: String)
    ensures
        r@ == "/usr/local/etc/heimdall/config.json"@,
{
    to_string("/usr/local/etc/heimdall/config.json")
}

/// The configuration file used while developing.
pub fn get_debug_config_path() -> (r: String)
    ensures
        r@ == "/tmp/heimdall/config.json"@,
{
    to_string("/tmp/heimdall/config.json")
}

} // verus!
