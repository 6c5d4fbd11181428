use jade::config::{
    Bootloader, Config, DesktopSetup, Locale, Networking, Partition, PartitionMode, User,
};
use jade::partition_spec::PartitionSpec;
use jade::plan::{
    genfstab, install_base_packages, install_bootloader_efi, install_bootloader_legacy,
    join_locales, plan, resolve_device, same_text, Action, PlanError,
};

fn strings(items: &[&str]) -> Vec<String> {
    items.iter().map(|s| s.to_string()).collect()
}

fn user(name: &str, password: &str, hasroot: bool) -> User {
    User { name: name.to_string(), password: password.to_string(), hasroot }
}

fn sample(kind: &str) -> Config {
    Config {
        partition: Partition {
            device: "sda".to_string(),
            mode: PartitionMode::Auto,
            efi: true,
            partitions: Vec::new(),
        },
        bootloader: Bootloader { kind: kind.to_string(), location: "/boot/efi".to_string() },
        locale: Locale {
            locale: strings(&["en_US.UTF-8 UTF-8"]),
            keymap: "us".to_string(),
            timezone: "Europe/Berlin".to_string(),
        },
        networking: Networking { hostname: "crystal".to_string(), ipv6: false },
        users: vec![user("alice", "secret", true)],
        rootpass: "rootpw".to_string(),
        desktop: None,
        timeshift: false,
        flatpak: false,
        extra_packages: Vec::new(),
    }
}

fn position(actions: &[Action], pred: impl Fn(&Action) -> bool) -> Vec<usize> {
    actions.iter().enumerate().filter(|(_, a)| pred(a)).map(|(i, _)| i).collect()
}

fn is_grub_install_for(a: &Action, target: &str) -> bool {
    matches!(a, Action::Run { program, args, .. } if program == "grub-install" && args.first().map(|s| s.as_str()) == Some(target))
}

#[test]
fn base_stage_copies_config_and_installs_baseline() {
    let actions = install_base_packages();
    assert_eq!(actions.len(), 3);
    assert_eq!(actions[0], Action::CreateDir { path: "/mnt/etc".to_string() });
    assert_eq!(
        actions[1],
        Action::CopyFile { from: "/etc/pacman.conf".to_string(), to: "/mnt/etc/pacman.conf".to_string() }
    );
    match &actions[2] {
        Action::Install { packages } => {
            assert_eq!(packages.len(), 17);
            assert_eq!(packages[0], "base");
            assert!(packages.contains(&"timeshift-autosnap".to_string()));
            assert_eq!(packages[16], "which");
        }
        other => panic!("unexpected {:?}", other),
    }
}

#[test]
fn genfstab_targets_the_mount_root() {
    assert_eq!(
        genfstab(),
        Action::Run {
            program: "genfstab".to_string(),
            args: strings(&["-U", "/mnt", ">>", "/mnt/etc/fstab"]),
            chroot: false,
            label: "Generate fstab".to_string(),
        }
    );
}

#[test]
fn efi_bootloader_stage() {
    let actions = install_bootloader_efi("/boot/efi");
    assert_eq!(actions.len(), 3);
    assert_eq!(actions[0], Action::Install { packages: strings(&["grub", "efibootmgr"]) });
    assert_eq!(
        actions[1],
        Action::Run {
            program: "grub-install".to_string(),
            args: strings(&["--target=x86_64-efi", "--efi-directory=/boot/efi", "--bootloader-id=crystal"]),
            chroot: true,
            label: "install grub as efi".to_string(),
        }
    );
    assert_eq!(
        actions[2],
        Action::Run {
            program: "grub-mkconfig".to_string(),
            args: strings(&["-o", "/boot/grub/grub.cfg"]),
            chroot: true,
            label: "create grub.cfg".to_string(),
        }
    );
}

#[test]
fn legacy_bootloader_stage() {
    let actions = install_bootloader_legacy("/dev/sda");
    assert_eq!(actions.len(), 3);
    assert_eq!(actions[0], Action::Install { packages: strings(&["grub"]) });
    assert_eq!(
        actions[1],
        Action::Run {
            program: "grub-install".to_string(),
            args: strings(&["--target=i386-pc", "/dev/sda"]),
            chroot: true,
            label: "install grub as legacy".to_string(),
        }
    );
}

#[test]
fn device_names_resolve_under_dev() {
    assert_eq!(resolve_device("sda"), "/dev/sda");
    assert_eq!(resolve_device("/dev/nvme0n1"), "/dev/nvme0n1");
    assert_eq!(resolve_device(""), "/dev/");
}

#[test]
fn locales_are_joined_by_spaces() {
    assert_eq!(join_locales(&strings(&["en_US.UTF-8 UTF-8", "de_DE.UTF-8 UTF-8"])), "en_US.UTF-8 UTF-8 de_DE.UTF-8 UTF-8");
    assert_eq!(join_locales(&strings(&["C"])), "C");
    assert_eq!(join_locales(&Vec::new()), "");
}

#[test]
fn same_text_compares_characters() {
    assert!(same_text("grub-efi", "grub-efi"));
    assert!(!same_text("grub-efi", "grub-legacy"));
    assert!(!same_text("grub-efi", "grub-efj"));
    assert!(!same_text("", "x"));
}

#[test]
fn efi_configuration_takes_only_the_efi_branch() {
    let actions = plan(&sample("grub-efi")).unwrap();
    assert!(actions.contains(&Action::Install { packages: strings(&["grub", "efibootmgr"]) }));
    let efi = position(&actions, |a| is_grub_install_for(a, "--target=x86_64-efi"));
    assert_eq!(efi.len(), 1);
    match &actions[efi[0]] {
        Action::Run { args, .. } => assert!(args.contains(&"--bootloader-id=crystal".to_string())),
        _ => unreachable!(),
    }
    assert!(position(&actions, |a| is_grub_install_for(a, "--target=i386-pc")).is_empty());
}

#[test]
fn legacy_configuration_takes_only_the_legacy_branch() {
    let mut config = sample("grub-legacy");
    config.bootloader.location = "/dev/sda".to_string();
    let actions = plan(&config).unwrap();
    assert_eq!(position(&actions, |a| is_grub_install_for(a, "--target=i386-pc")).len(), 1);
    assert!(position(&actions, |a| is_grub_install_for(a, "--target=x86_64-efi")).is_empty());
    assert!(!actions.contains(&Action::Install { packages: strings(&["grub", "efibootmgr"]) }));
}

#[test]
fn unknown_bootloader_is_refused() {
    assert_eq!(plan(&sample("systemd-boot")), Err(PlanError::UnknownBootloader));
}

#[test]
fn stage_order_of_a_full_plan() {
    let mut config = sample("grub-efi");
    config.networking.ipv6 = true;
    config.desktop = Some(DesktopSetup::Kde);
    config.timeshift = true;
    config.flatpak = true;
    config.extra_packages = strings(&["firefox", "git"]);
    let actions = plan(&config).unwrap();
    assert_eq!(actions.len(), 20);
    assert_eq!(
        actions[0],
        Action::Partition { device: "/dev/sda".to_string(), mode: PartitionMode::Auto, efi: true, partitions: Vec::new() }
    );
    assert_eq!(actions[4], genfstab());
    assert_eq!(actions[8], Action::SetLocale { locales: "en_US.UTF-8 UTF-8".to_string() });
    assert_eq!(actions[9], Action::SetKeyboard { keymap: "us".to_string() });
    assert_eq!(actions[10], Action::SetTimezone { timezone: "Europe/Berlin".to_string() });
    assert_eq!(actions[11], Action::SetHostname { hostname: "crystal".to_string() });
    assert_eq!(actions[12], Action::CreateHosts);
    assert_eq!(actions[13], Action::EnableIpv6);
    assert_eq!(actions[15], Action::RootPass { password: "rootpw".to_string() });
    assert_eq!(actions[16], Action::InstallDesktop { desktop: DesktopSetup::Kde });
    assert_eq!(actions[19], Action::Install { packages: strings(&["firefox", "git"]) });
}

#[test]
fn minimal_plan_has_no_optional_steps() {
    let actions = plan(&sample("grub-efi")).unwrap();
    assert_eq!(actions.len(), 16);
    assert!(!actions.contains(&Action::EnableIpv6));
    assert!(position(&actions, |a| matches!(a, Action::InstallDesktop { .. })).is_empty());
    assert_eq!(actions[15], Action::Install { packages: Vec::new() });
}

#[test]
fn manual_mode_parses_every_entry() {
    let mut config = sample("grub-efi");
    config.partition.mode = PartitionMode::Manual;
    config.partition.partitions = strings(&["/dev/sda1:/boot/efi:vfat", "/dev/sda2:/:btrfs"]);
    let actions = plan(&config).unwrap();
    assert_eq!(
        actions[0],
        Action::Partition {
            device: "/dev/sda".to_string(),
            mode: PartitionMode::Manual,
            efi: true,
            partitions: vec![
                PartitionSpec { device: "/dev/sda1".to_string(), mountpoint: "/boot/efi".to_string(), filesystem: "vfat".to_string() },
                PartitionSpec { device: "/dev/sda2".to_string(), mountpoint: "/".to_string(), filesystem: "btrfs".to_string() },
            ],
        }
    );
}

#[test]
fn manual_mode_reports_first_malformed_entry() {
    let mut config = sample("no-such-loader");
    config.partition.mode = PartitionMode::Manual;
    config.partition.partitions = strings(&["/dev/sda1:/boot/efi:vfat", "/dev/sda2:/", "bad"]);
    assert_eq!(plan(&config), Err(PlanError::MalformedPartition { index: 1 }));
}

#[test]
fn auto_mode_ignores_partition_entries() {
    let mut config = sample("grub-efi");
    config.partition.partitions = strings(&["garbage"]);
    let actions = plan(&config).unwrap();
    assert_eq!(
        actions[0],
        Action::Partition { device: "/dev/sda".to_string(), mode: PartitionMode::Auto, efi: true, partitions: Vec::new() }
    );
}

#[test]
fn features_off_never_run() {
    let actions = plan(&sample("grub-efi")).unwrap();
    assert!(!actions.contains(&Action::SetupTimeshift));
    assert!(!actions.contains(&Action::InstallFlatpak));
}

#[test]
fn features_on_run_once_between_root_password_and_extras() {
    let mut config = sample("grub-efi");
    config.timeshift = true;
    config.flatpak = true;
    config.extra_packages = strings(&["vim"]);
    let actions = plan(&config).unwrap();
    let root = position(&actions, |a| matches!(a, Action::RootPass { .. }));
    let timeshift = position(&actions, |a| *a == Action::SetupTimeshift);
    let flatpak = position(&actions, |a| *a == Action::InstallFlatpak);
    let extras = actions.len() - 1;
    assert_eq!(actions[extras], Action::Install { packages: strings(&["vim"]) });
    assert_eq!(root.len(), 1);
    assert_eq!(timeshift.len(), 1);
    assert_eq!(flatpak.len(), 1);
    assert!(root[0] < timeshift[0] && timeshift[0] < extras);
    assert!(root[0] < flatpak[0] && flatpak[0] < extras);
}

#[test]
fn two_users_then_root_password_once() {
    let mut config = sample("grub-efi");
    config.users = vec![user("alice", "pw1", true), user("bob", "pw2", false)];
    let actions = plan(&config).unwrap();
    let users = position(&actions, |a| matches!(a, Action::NewUser { .. }));
    let root = position(&actions, |a| matches!(a, Action::RootPass { .. }));
    assert_eq!(users.len(), 2);
    assert_eq!(root.len(), 1);
    assert_eq!(actions[users[0]], Action::NewUser { name: "alice".to_string(), hasroot: true, password: "pw1".to_string() });
    assert_eq!(actions[users[1]], Action::NewUser { name: "bob".to_string(), hasroot: false, password: "pw2".to_string() });
    assert!(users[0] < users[1] && users[1] < root[0]);
    assert_eq!(actions[root[0]], Action::RootPass { password: "rootpw".to_string() });
}
