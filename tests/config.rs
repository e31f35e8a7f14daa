use heimdall::config::greeting;
use heimdall::config::{
    get_config_path, get_debug_config_path, validate_config, validate_schedule, Config, CreateUserError, Instant,
    OpenPeriod, PeriodError, Schedule, ScheduleValidationError, UserConfig,
};

fn period(start: (u8, u8, u8), end: (u8, u8, u8)) -> OpenPeriod {
    OpenPeriod {
        start: Instant { weekday: start.0, hour: start.1, minute: start.2 },
        end: Instant { weekday: end.0, hour: end.1, minute: end.2 },
        note: String::new(),
    }
}

fn user(name: &str, periods: Vec<OpenPeriod>, passwords: bool) -> UserConfig {
    UserConfig {
        username: name.to_owned(),
        normal_password: if passwords { Some("normal".to_owned()) } else { None },
        lockdown_password: if passwords { Some("lockdown".to_owned()) } else { None },
        schedule: Schedule { open_periods: periods },
    }
}

fn config_with(users: Vec<UserConfig>) -> Config {
    let mut c = Config::new();
    for u in users {
        c.check_new_user(&u).unwrap();
        c.add_user(u);
    }
    c
}

#[test]
fn new_config_is_new() {
    let c = Config::new();
    assert!(c.is_new());
    let c = config_with(vec![user("alice", vec![], true)]);
    assert!(!c.is_new());
}

#[test]
fn duplicate_username_is_rejected() {
    let c = config_with(vec![user("alice", vec![period((1, 9, 0), (1, 17, 0))], true)]);
    assert_eq!(c.check_new_user(&user("alice", vec![], true)), Err(CreateUserError::AlreadyExists));
    assert_eq!(c.check_new_user(&user("alice", vec![], false)), Err(CreateUserError::AlreadyExists));
    // The configuration is left as it was.
    assert_eq!(c.user_config.len(), 1);
    assert_eq!(c.user_config[0].schedule.open_periods.len(), 1);
}

#[test]
fn missing_passwords_are_rejected() {
    let c = Config::new();
    assert_eq!(c.check_new_user(&user("bob", vec![], false)), Err(CreateUserError::NoPasswords));
    let mut half = user("bob", vec![], true);
    half.lockdown_password = None;
    assert_eq!(c.check_new_user(&half), Err(CreateUserError::NoPasswords));
    assert_eq!(
        c.check_new_user(&user("bob", vec![], true)),
        Ok(("normal".to_owned(), "lockdown".to_owned()))
    );
}

#[test]
fn added_user_has_no_passwords() {
    let c = config_with(vec![user("alice", vec![], true), user("bob", vec![], true)]);
    assert_eq!(c.user_config.len(), 2);
    for u in &c.user_config {
        assert!(u.normal_password.is_none());
        assert!(u.lockdown_password.is_none());
    }
    assert!(c.contains_user("bob"));
    assert!(!c.contains_user("carol"));
    assert_eq!(c.find_user("bob"), Some(1));
}

#[test]
fn invalid_period_is_rejected() {
    let ok = period((3, 14, 45), (3, 15, 0));
    assert_eq!(ok.validate(), Ok(()));
    assert_eq!(period((3, 15, 0), (3, 15, 0)).validate(), Err(PeriodError::EndNotAfterStart));
    assert_eq!(period((4, 0, 0), (3, 23, 59)).validate(), Err(PeriodError::EndNotAfterStart));
    assert_eq!(period((7, 0, 0), (7, 1, 0)).validate(), Err(PeriodError::InstantOutOfRange));
    assert_eq!(period((1, 0, 0), (1, 24, 0)).validate(), Err(PeriodError::InstantOutOfRange));
    assert_eq!(period((1, 0, 60), (1, 2, 0)).validate(), Err(PeriodError::InstantOutOfRange));
}

#[test]
fn config_with_invalid_period_fails_validation() {
    let good = config_with(vec![
        user("alice", vec![period((1, 9, 0), (1, 17, 0))], true),
        user("bob", vec![], true),
    ]);
    assert_eq!(validate_config(&good), Ok(()));
    let bad = config_with(vec![
        user("alice", vec![period((1, 9, 0), (1, 17, 0))], true),
        user("bob", vec![period((0, 0, 0), (6, 23, 59)), period((2, 10, 0), (2, 9, 0))], true),
    ]);
    assert_eq!(
        validate_config(&bad),
        Err(ScheduleValidationError { user_index: 1, period_index: 1, reason: PeriodError::EndNotAfterStart })
    );
    assert_eq!(
        validate_schedule(&bad.user_config[1].schedule),
        Err((1, PeriodError::EndNotAfterStart))
    );
}

#[test]
fn config_paths() {
    assert_eq!(get_config_path(), "/usr/local/etc/heimdall/config.json");
    assert_eq!(get_debug_config_path(), "/tmp/heimdall/config.json");
}

#[test]
fn greeting_depends_on_users() {
    assert_eq!(greeting(&Config::new()), "Welcome!");
    assert_eq!(greeting(&config_with(vec![user("alice", vec![], true)])), "Hello again!");
}

#[test]
fn create_user_adds_or_leaves_config_unchanged() {
    let mut c = Config::new();
    assert_eq!(
        c.create_user(user("alice", vec![period((1, 9, 0), (1, 17, 0))], true)),
        Ok(("normal".to_owned(), "lockdown".to_owned()))
    );
    assert_eq!(c.user_config.len(), 1);
    assert!(c.user_config[0].normal_password.is_none());
    assert!(c.user_config[0].lockdown_password.is_none());
    assert_eq!(c.create_user(user("alice", vec![], true)), Err(CreateUserError::AlreadyExists));
    assert_eq!(c.create_user(user("bob", vec![], false)), Err(CreateUserError::NoPasswords));
    assert_eq!(c.user_config.len(), 1);
    assert_eq!(c.user_config[0].username, "alice");
    assert_eq!(c.user_config[0].schedule.open_periods.len(), 1);
}

#[test]
fn first_invalid_period_is_reported() {
    let bad = config_with(vec![
        user("alice", vec![period((1, 9, 0), (1, 17, 0)), period((8, 0, 0), (8, 1, 0))], true),
        user("bob", vec![period((2, 10, 0), (2, 9, 0))], true),
    ]);
    assert_eq!(
        validate_config(&bad),
        Err(ScheduleValidationError { user_index: 0, period_index: 1, reason: PeriodError::InstantOutOfRange })
    );
}
