use jade::config::{Bootloader, Config, Locale, Networking, Partition, PartitionMode, User};
use jade::plan::{Action, PlanError};
use jade::run::{
    failure_code, Failure, Installer, LoadError, RunState, EXIT_INVALID, EXIT_IO_FALLBACK,
    EXIT_SCHEMA, EXIT_STAGE,
};

fn sample(kind: &str) -> Config {
    Config {
        partition: Partition {
            device: "vda".to_string(),
            mode: PartitionMode::Auto,
            efi: false,
            partitions: Vec::new(),
        },
        bootloader: Bootloader { kind: kind.to_string(), location: "/dev/vda".to_string() },
        locale: Locale {
            locale: vec!["en_US.UTF-8 UTF-8".to_string()],
            keymap: "us".to_string(),
            timezone: "UTC".to_string(),
        },
        networking: Networking { hostname: "box".to_string(), ipv6: false },
        users: vec![User { name: "alice".to_string(), password: "pw".to_string(), hasroot: true }],
        rootpass: "root".to_string(),
        desktop: None,
        timeshift: false,
        flatpak: false,
        extra_packages: Vec::new(),
    }
}

#[test]
fn schema_failure_runs_nothing() {
    let run = Installer::start(Err(LoadError::Schema));
    assert!(run.next_action().is_none());
    assert_eq!(run.completed(), 0);
    assert_eq!(run.state(), RunState::Failed(Failure::Load(LoadError::Schema)));
    assert_eq!(run.exit_code(), Some(EXIT_SCHEMA));
}

#[test]
fn io_failure_passes_the_os_code_on() {
    let run = Installer::start(Err(LoadError::Io { os_code: Some(2) }));
    assert!(run.next_action().is_none());
    assert_eq!(run.exit_code(), Some(2));
    let run = Installer::start(Err(LoadError::Io { os_code: None }));
    assert_eq!(run.exit_code(), Some(EXIT_IO_FALLBACK));
}

#[test]
fn failure_codes_stay_apart() {
    assert_eq!(failure_code(Failure::Load(LoadError::Io { os_code: Some(13) })), 13);
    assert_eq!(failure_code(Failure::Load(LoadError::Io { os_code: Some(0) })), EXIT_IO_FALLBACK);
    assert_eq!(failure_code(Failure::Load(LoadError::Io { os_code: Some(-5) })), EXIT_IO_FALLBACK);
    assert_eq!(failure_code(Failure::Load(LoadError::Io { os_code: Some(EXIT_STAGE) })), EXIT_IO_FALLBACK);
    assert_eq!(failure_code(Failure::Load(LoadError::Schema)), 254);
    assert_eq!(failure_code(Failure::Plan(PlanError::UnknownBootloader)), 253);
    assert_eq!(failure_code(Failure::Stage { index: 3 }), 252);
}

#[test]
fn unplannable_configuration_runs_nothing() {
    let run = Installer::start(Ok(sample("lilo")));
    assert!(run.next_action().is_none());
    assert_eq!(run.state(), RunState::Failed(Failure::Plan(PlanError::UnknownBootloader)));
    assert_eq!(run.exit_code(), Some(EXIT_INVALID));
}

#[test]
fn successful_run_visits_every_action_in_order() {
    let mut run = Installer::start(Ok(sample("grub-legacy")));
    assert_eq!(run.exit_code(), None);
    let mut seen: Vec<Action> = Vec::new();
    while let Some(action) = run.next_action() {
        seen.push(action.clone());
        run.report(true);
    }
    assert_eq!(seen.len(), 16);
    assert!(matches!(seen[0], Action::Partition { .. }));
    assert_eq!(seen[15], Action::Install { packages: Vec::new() });
    assert_eq!(run.completed(), 16);
    assert_eq!(run.state(), RunState::Finished);
    assert_eq!(run.exit_code(), Some(0));
}

#[test]
fn first_failure_stops_the_run() {
    let mut run = Installer::start(Ok(sample("grub-legacy")));
    run.report(true);
    run.report(true);
    assert!(run.next_action().is_some());
    run.report(false);
    assert!(run.next_action().is_none());
    assert_eq!(run.completed(), 2);
    assert_eq!(run.state(), RunState::Failed(Failure::Stage { index: 2 }));
    assert_eq!(run.exit_code(), Some(EXIT_STAGE));
}
