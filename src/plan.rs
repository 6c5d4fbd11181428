//! The installation plan: the ordered list of collaborator operations that
//! realise a configuration on the target root mounted at `/mnt`.
use vstd::prelude::*;
use vstd::string::*;
use crate::config::{Config, DesktopSetup, PartitionMode, User};
use crate::partition_spec::{fields, is_well_formed, parse_partition_spec, PartitionSpec};

verus! {

/// One operation handed to an outside collaborator.
#[derive(Clone, Debug, PartialEq, Eq)]
pub enum Action {
    /// Create a directory and its parents.
    CreateDir { path: String },
    /// Copy a file from the live system into the target.
    CopyFile { from: String, to: String },
    /// Partition, format and mount the target disk.
    Partition { device: String, mode: PartitionMode, efi: bool, partitions: Vec<PartitionSpec> },
    /// Install packages into the target root.
    Install { packages: Vec<String> },
    /// Run a program, inside the target root when `chroot` holds; `label`
    /// names the operation in diagnostics.
    Run { program: String, args: Vec<String>, chroot: bool, label: String },
    SetLocale { locales: String },
    SetKeyboard { keymap: String },
    SetTimezone { timezone: String },
    SetHostname { hostname: String },
    CreateHosts,
    EnableIpv6,
    NewUser { name: String, hasroot: bool, password: String },
    RootPass { password: String },
    InstallDesktop { desktop: DesktopSetup },
    SetupTimeshift,
    InstallFlatpak,
}

/// The mathematical value of an [`Action`].
pub enum Step {
    CreateDir { path: Seq<char> },
    CopyFile { from: Seq<char>, to: Seq<char> },
    Partition {
        device: Seq<char>,
        mode: PartitionMode,
        efi: bool,
        partitions: Seq<(Seq<char>, Seq<char>, Seq<char>)>,
    },
    Install { packages: Seq<Seq<char>> },
    Run { program: Seq<char>, args: Seq<Seq<char>>, chroot: bool, label: Seq<char> },
    SetLocale { locales: Seq<char> },
    SetKeyboard { keymap: Seq<char> },
    SetTimezone { timezone: Seq<char> },
    SetHostname { hostname: Seq<char> },
    CreateHosts,
    EnableIpv6,
    NewUser { name: Seq<char>, hasroot: bool, password: Seq<char> },
    RootPass { password: Seq<char> },
    InstallDesktop { desktop: DesktopSetup },
    SetupTimeshift,
    InstallFlatpak,
}

/// Why a configuration cannot be turned into a plan.
#[derive(Clone, Copy, Debug, PartialEq, Eq, Structural)]
pub enum PlanError {
    /// In manual mode, the partition entry at `index` is malformed.
    MalformedPartition { index: usize },
    /// The bootloader type is neither `grub-efi` nor `grub-legacy`.
    UnknownBootloader,
}

pub open spec fn strs(v: Seq<String>) -> Seq<Seq<char>> {
    v.map_values(|s: String| s@)
}

pub open spec fn spec_view(p: PartitionSpec) -> (Seq<char>, Seq<char>, Seq<char>) {
    (p.device@, p.mountpoint@, p.filesystem@)
}

impl View for Action {
    type V = Step;

    open spec fn view(&self) -> Step {
        match self {
            Action::CreateDir { path } => Step::CreateDir { path: path@ },
            Action::CopyFile { from, to } => Step::CopyFile { from: from@, to: to@ },
            Action::Partition { device, mode, efi, partitions } => Step::Partition {
                device: device@,
                mode: *mode,
                efi: *efi,
                partitions: partitions@.map_values(|p: PartitionSpec| spec_view(p)),
            },
            Action::Install { packages } => Step::Install { packages: strs(packages@) },
            Action::Run { program, args, chroot, label } => Step::Run {
                program: program@,
                args: strs(args@),
                chroot: *chroot,
                label: label@,
            },
            Action::SetLocale { locales } => Step::SetLocale { locales: locales@ },
            Action::SetKeyboard { keymap } => Step::SetKeyboard { keymap: keymap@ },
            Action::SetTimezone { timezone } => Step::SetTimezone { timezone: timezone@ },
            Action::SetHostname { hostname } => Step::SetHostname { hostname: hostname@ },
            Action::CreateHosts => Step::CreateHosts,
            Action::EnableIpv6 => Step::EnableIpv6,
            Action::NewUser { name, hasroot, password } => Step::NewUser {
                name: name@,
                hasroot: *hasroot,
                password: password@,
            },
            Action::RootPass { password } => Step::RootPass { password: password@ },
            Action::InstallDesktop { desktop } => Step::InstallDesktop { desktop: *desktop },
            Action::SetupTimeshift => Step::SetupTimeshift,
            Action::InstallFlatpak => Step::InstallFlatpak,
        }
    }
}

pub open spec fn steps_of(v: Seq<Action>) -> Seq<Step> {
    v.map_values(|a: Action| a@)
}

/// The fixed baseline package set of every installation.
pub open spec fn base_packages() -> Seq<Seq<char>> {
    seq![
        "base"@,
        "linux"@,
        "linux-firmware"@,
        "systemd-sysvcompat"@,
        "networkmanager"@,
        "man-db"@,
        "man-pages"@,
        "texinfo"@,
        "micro"@,
        "sudo"@,
        "curl"@,
        "archlinux-keyring"@,
        "neofetch"@,
        "btrfs-progs"@,
        "timeshift"@,
        "timeshift-autosnap"@,
        "which"@,
    ]
}

/// Base install: the package-manager configuration goes into the target,
/// then the baseline packages are installed.
pub open spec fn base_stage() -> Seq<Step> {
    seq![
        Step::CreateDir { path: "/mnt/etc"@ },
        Step::CopyFile { from: "/etc/pacman.conf"@, to: "/mnt/etc/pacman.conf"@ },
        Step::Install { packages: base_packages() },
    ]
}

pub open spec fn fstab_step() -> Step {
    Step::Run {
        program: "genfstab"@,
        args: seq!["-U"@, "/mnt"@, ">>"@, "/mnt/etc/fstab"@],
        chroot: false,
        label: "Generate fstab"@,
    }
}

pub open spec fn grub_mkconfig_step() -> Step {
    Step::Run {
        program: "grub-mkconfig"@,
        args: seq!["-o"@, "/boot/grub/grub.cfg"@],
        chroot: true,
        label: "create grub.cfg"@,
    }
}

pub open spec fn efi_install_step(efidir: Seq<char>) -> Step {
    Step::Run {
        program: "grub-install"@,
        args: seq!["--target=x86_64-efi"@, "--efi-directory="@ + efidir, "--bootloader-id=crystal"@],
        chroot: true,
        label: "install grub as efi"@,
    }
}

pub open spec fn legacy_install_step(device: Seq<char>) -> Step {
    Step::Run {
        program: "grub-install"@,
        args: seq!["--target=i386-pc"@, device],
        chroot: true,
        label: "install grub as legacy"@,
    }
}

pub open spec fn efi_stage(efidir: Seq<char>) -> Seq<Step> {
    seq![
        Step::Install { packages: seq!["grub"@, "efibootmgr"@] },
        efi_install_step(efidir),
        grub_mkconfig_step(),
    ]
}

pub open spec fn legacy_stage(device: Seq<char>) -> Seq<Step> {
    seq![
        Step::Install { packages: seq!["grub"@] },
        legacy_install_step(device),
        grub_mkconfig_step(),
    ]
}

pub open spec fn is_efi_kind(kind: Seq<char>) -> bool {
    kind == "grub-efi"@
}

pub open spec fn is_legacy_kind(kind: Seq<char>) -> bool {
    kind == "grub-legacy"@
}

pub open spec fn bootloader_stage(c: &Config) -> Seq<Step> {
    if is_efi_kind(c.bootloader.kind@) {
        efi_stage(c.bootloader.location@)
    } else if is_legacy_kind(c.bootloader.kind@) {
        legacy_stage(c.bootloader.location@)
    } else {
        Seq::empty()
    }
}

/// The block device path: an absolute path is kept, a bare name lives under `/dev/`.
pub open spec fn dev_path(device: Seq<char>) -> Seq<char> {
    if device.len() > 0 && device[0] == '/' {
        device
    } else {
        "/dev/"@ + device
    }
}

/// The three fields of a partition entry.
pub open spec fn entry_triple(s: Seq<char>) -> (Seq<char>, Seq<char>, Seq<char>) {
    (fields(s)[0], fields(s)[1], fields(s)[2])
}

pub open spec fn partition_step(c: &Config) -> Step {
    Step::Partition {
        device: dev_path(c.partition.device@),
        mode: c.partition.mode,
        efi: c.partition.efi,
        partitions: if c.partition.mode == PartitionMode::Manual {
            c.partition.partitions@.map_values(|s: String| entry_triple(s@))
        } else {
            Seq::empty()
        },
    }
}

/// Words joined by single spaces.
pub open spec fn join_spaced(words: Seq<Seq<char>>) -> Seq<char>
    decreases words.len(),
{
    if words.len() == 0 {
        Seq::empty()
    } else if words.len() == 1 {
        words[0]
    } else {
        join_spaced(words.drop_last()) + " "@ + words.last()
    }
}

pub open spec fn locale_stage(c: &Config) -> Seq<Step> {
    seq![
        Step::SetLocale { locales: join_spaced(strs(c.locale.locale@)) },
        Step::SetKeyboard { keymap: c.locale.keymap@ },
        Step::SetTimezone { timezone: c.locale.timezone@ },
    ]
}

pub open spec fn network_stage(c: &Config) -> Seq<Step> {
    seq![Step::SetHostname { hostname: c.networking.hostname@ }, Step::CreateHosts] + if c.networking.ipv6 {
        seq![Step::EnableIpv6]
    } else {
        Seq::empty()
    }
}

pub open spec fn user_step(u: User) -> Step {
    Step::NewUser { name: u.name@, hasroot: u.hasroot, password: u.password@ }
}

pub open spec fn user_stage(users: Seq<User>) -> Seq<Step> {
    users.map_values(|u: User| user_step(u))
}

pub open spec fn desktop_stage(c: &Config) -> Seq<Step> {
    match c.desktop {
        Some(d) => seq![Step::InstallDesktop { desktop: d }],
        None => Seq::empty(),
    }
}

pub open spec fn feature_stage(c: &Config) -> Seq<Step> {
    (if c.timeshift {
        seq![Step::SetupTimeshift]
    } else {
        Seq::empty()
    }) + (if c.flatpak {
        seq![Step::InstallFlatpak]
    } else {
        Seq::empty()
    })
}

pub open spec fn extra_step(c: &Config) -> Step {
    Step::Install { packages: strs(c.extra_packages@) }
}

/// Everything up to and including the root password, in stage order.
pub open spec fn core_steps(c: &Config) -> Seq<Step> {
    seq![partition_step(c)] + base_stage() + seq![fstab_step()] + bootloader_stage(c)
        + locale_stage(c) + network_stage(c) + user_stage(c.users@) + seq![
        Step::RootPass { password: c.rootpass@ },
    ]
}

/// The whole installation, stage by stage.
pub open spec fn steps(c: &Config) -> Seq<Step> {
    core_steps(c) + desktop_stage(c) + feature_stage(c) + seq![extra_step(c)]
}

/// The configuration can be planned: every manual partition entry is well
/// formed and the bootloader type is known.
pub open spec fn partitions_ok(c: &Config) -> bool {
    c.partition.mode == PartitionMode::Manual ==> forall|i: int|
        0 <= i < c.partition.partitions@.len() ==> is_well_formed(
            #[trigger] c.partition.partitions@[i]@,
        )
}

pub open spec fn first_malformed(list: Seq<String>, i: int) -> bool {
    &&& 0 <= i < list.len()
    &&& !is_well_formed(list[i]@)
    &&& forall|j: int| 0 <= j < i ==> is_well_formed(#[trigger] list[j]@)
}

pub open spec fn bootloader_known(kind: Seq<char>) -> bool {
    is_efi_kind(kind) || is_legacy_kind(kind)
}

/// `e` is the reason why `c` cannot be planned.
pub open spec fn refusal(c: &Config, e: PlanError) -> bool {
    match e {
        PlanError::MalformedPartition { index } => c.partition.mode == PartitionMode::Manual
            && first_malformed(c.partition.partitions@, index as int),
        PlanError::UnknownBootloader => partitions_ok(c) && !bootloader_known(c.bootloader.kind@),
    }
}

proof fn lemma_steps_of_add(a: Seq<Action>, b: Seq<Action>)
    ensures
        steps_of(a + b) == steps_of(a) + steps_of(b),
{
    assert(steps_of(a + b) =~= steps_of(a) + steps_of(b));
}

/// Appends `more` to `v`.
fn push_all(v: &mut Vec<Action>, more: Vec<Action>)
    ensures
        steps_of(final(v)@) == steps_of(old(v)@) + steps_of(more@),
{
    let mut more = more;
    proof {
        lemma_steps_of_add(v@, more@);
    }
    v.append(&mut more);
}

/// A copy of a list of strings.
fn copy_strings(v: &Vec<String>) -> (r: Vec<String>)
    ensures
        strs(r@) == strs(v@),
{
    let mut r: Vec<String> = Vec::new();
    let mut i: usize = 0;
    while i < v.len()
        invariant
            i <= v@.len(),
            strs(r@) == strs(v@.subrange(0, i as int)),
        decreases v@.len() - i,
    {
        let item = v[i].clone();
        assert(item@ == v@[i as int]@);
        let ghost before = r@;
        r.push(item);
        proof {
            assert(v@.subrange(0, i + 1) =~= v@.subrange(0, i as int).push(v@[i as int]));
            assert(strs(r@) =~= strs(before).push(item@));
            assert(strs(v@.subrange(0, i + 1)) =~= strs(v@.subrange(0, i as int)).push(item@));
        }
        assert(strs(r@) =~= strs(v@.subrange(0, i + 1)));
        i = i + 1;
    }
    assert(v@.subrange(0, v@.len() as int) =~= v@);
    r
}

/// Whether two strings hold the same characters.
pub fn same_text(a: &str, b: &str) -> (r: bool)
    ensures
        r == (a@ == b@),
{
    let n = a.unicode_len();
    if n != b.unicode_len() {
        return false;
    }
    let mut i: usize = 0;
    while i < n
        invariant
            n == a@.len(),
            n == b@.len(),
            i <= n,
            forall|k: int| 0 <= k < i ==> a@[k] == b@[k],
        decreases n - i,
    {
        if a.get_char(i) != b.get_char(i) {
            return false;
        }
        i = i + 1;
    }
    assert(a@ =~= b@);
    true
}

/// The base install stage: copies the package-manager configuration into the
/// target and installs the baseline package set.
pub fn install_base_packages() -> (r: Vec<Action>)
    ensures
        steps_of(r@) == base_stage(),
{
    let packages = vec![
        String::from_str("base"),
        String::from_str("linux"),
        String::from_str("linux-firmware"),
        String::from_str("systemd-sysvcompat"),
        String::from_str("networkmanager"),
        String::from_str("man-db"),
        String::from_str("man-pages"),
        String::from_str("texinfo"),
        String::from_str("micro"),
        String::from_str("sudo"),
        String::from_str("curl"),
        String::from_str("archlinux-keyring"),
        String::from_str("neofetch"),
        String::from_str("btrfs-progs"),
        String::from_str("timeshift"),
        String::from_str("timeshift-autosnap"),
        String::from_str("which"),
    ];
    assert(strs(packages@) =~= base_packages());
    let r = vec![
        Action::CreateDir { path: String::from_str("/mnt/etc") },
        Action::CopyFile {
            from: String::from_str("/etc/pacman.conf"),
            to: String::from_str("/mnt/etc/pacman.conf"),
        },
        Action::Install { packages },
    ];
    assert(steps_of(r@) =~= base_stage());
    r
}

/// The filesystem-table generation stage.
pub fn genfstab() -> (r: Action)
    ensures
        r@ == fstab_step(),
{
    let args = vec![
        String::from_str("-U"),
        String::from_str("/mnt"),
        String::from_str(">>"),
        String::from_str("/mnt/etc/fstab"),
    ];
    assert(strs(args@) =~= seq!["-U"@, "/mnt"@, ">>"@, "/mnt/etc/fstab"@]);
    Action::Run {
        program: String::from_str("genfstab"),
        args,
        chroot: false,
        label: String::from_str("Generate fstab"),
    }
}

fn grub_mkconfig() -> (r: Action)
    ensures
        r@ == grub_mkconfig_step(),
{
    let args = vec![String::from_str("-o"), String::from_str("/boot/grub/grub.cfg")];
    assert(strs(args@) =~= seq!["-o"@, "/boot/grub/grub.cfg"@]);
    Action::Run {
        program: String::from_str("grub-mkconfig"),
        args,
        chroot: true,
        label: String::from_str("create grub.cfg"),
    }
}

/// The EFI bootloader stage for the EFI directory `efidir`.
pub fn install_bootloader_efi(efidir: &str) -> (r: Vec<Action>)
    ensures
        steps_of(r@) == efi_stage(efidir@),
{
    let packages = vec![String::from_str("grub"), String::from_str("efibootmgr")];
    assert(strs(packages@) =~= seq!["grub"@, "efibootmgr"@]);
    let mut dir_arg = String::from_str("--efi-directory=");
    dir_arg.append(efidir);
    let args = vec![
        String::from_str("--target=x86_64-efi"),
        dir_arg,
        String::from_str("--bootloader-id=crystal"),
    ];
    assert(strs(args@) =~= seq![
        "--target=x86_64-efi"@,
        "--efi-directory="@ + efidir@,
        "--bootloader-id=crystal"@,
    ]);
    let install = Action::Run {
        program: String::from_str("grub-install"),
        args,
        chroot: true,
        label: String::from_str("install grub as efi"),
    };
    let r = vec![Action::Install { packages }, install, grub_mkconfig()];
    assert(steps_of(r@) =~= efi_stage(efidir@));
    r
}

/// The legacy (BIOS) bootloader stage for the raw device `device`.
pub fn install_bootloader_legacy(device: &str) -> (r: Vec<Action>)
    ensures
        steps_of(r@) == legacy_stage(device@),
{
    let packages = vec![String::from_str("grub")];
    assert(strs(packages@) =~= seq!["grub"@]);
    let args = vec![String::from_str("--target=i386-pc"), String::from_str(device)];
    assert(strs(args@) =~= seq!["--target=i386-pc"@, device@]);
    let install = Action::Run {
        program: String::from_str("grub-install"),
        args,
        chroot: true,
        label: String::from_str("install grub as legacy"),
    };
    let r = vec![Action::Install { packages }, install, grub_mkconfig()];
    assert(steps_of(r@) =~= legacy_stage(device@));
    r
}


/// Appends one action to `v`.
fn push_one(v: &mut Vec<Action>, a: Action)
    ensures
        steps_of(final(v)@) == steps_of(old(v)@).push(a@),
{
    let ghost before = v@;
    v.push(a);
    assert(steps_of(v@) =~= steps_of(before).push(a@));
}

/// The path of the target block device: an absolute path is used as given,
/// a bare device name is looked up under `/dev/`.
pub fn resolve_device(device: &str) -> (r: String)
    ensures
        r@ == dev_path(device@),
{
    if device.unicode_len() > 0 && device.get_char(0) == '/' {
        String::from_str(device)
    } else {
        let mut path = String::from_str("/dev/");
        path.append(device);
        path
    }
}

/// The locale identifiers joined by single spaces, the form the locale
/// collaborator expects.
pub fn join_locales(words: &Vec<String>) -> (r: String)
    ensures
        r@ == join_spaced(strs(words@)),
{
    let mut r = String::new();
    let mut i: usize = 0;
    while i < words.len()
        invariant
            i <= words@.len(),
            r@ == join_spaced(strs(words@.subrange(0, i as int))),
        decreases words@.len() - i,
    {
        let ghost pre = strs(words@.subrange(0, i as int));
        let ghost next = strs(words@.subrange(0, i + 1));
        proof {
            assert(next =~= pre.push(words@[i as int]@));
            assert(next.drop_last() =~= pre);
        }
        if i > 0 {
            r.append(" ");
        }
        r.append(words[i].as_str());
        proof {
            if i == 0 {
                assert(r@ =~= next[0]);
            } else {
                assert(r@ =~= join_spaced(pre) + " "@ + next.last());
            }
        }
        i = i + 1;
    }
    assert(words@.subrange(0, words@.len() as int) =~= words@);
    r
}

/// Parses every manual partition entry, stopping at the first malformed one.
pub fn parse_partitions(list: &Vec<String>) -> (r: Result<Vec<PartitionSpec>, PlanError>)
    ensures
        r matches Ok(v) ==> {
            &&& forall|i: int| 0 <= i < list@.len() ==> is_well_formed(#[trigger] list@[i]@)
            &&& v@.map_values(|p: PartitionSpec| spec_view(p)) == list@.map_values(
                |s: String| entry_triple(s@),
            )
        },
        r matches Err(e) ==> e matches PlanError::MalformedPartition { index } && first_malformed(
            list@,
            index as int,
        ),
{
    let mut specs: Vec<PartitionSpec> = Vec::new();
    let mut i: usize = 0;
    while i < list.len()
        invariant
            i <= list@.len(),
            forall|j: int| 0 <= j < i ==> is_well_formed(#[trigger] list@[j]@),
            specs@.map_values(|p: PartitionSpec| spec_view(p)) == list@.subrange(
                0,
                i as int,
            ).map_values(|s: String| entry_triple(s@)),
        decreases list@.len() - i,
    {
        match parse_partition_spec(list[i].as_str()) {
            Ok(p) => {
                let ghost before = specs@;
                let ghost pv = spec_view(p);
                assert(pv == entry_triple(list@[i as int]@));
                specs.push(p);
                proof {
                    assert(specs@.map_values(|p: PartitionSpec| spec_view(p)) =~= before.map_values(
                        |p: PartitionSpec| spec_view(p),
                    ).push(pv));
                    assert(list@.subrange(0, i + 1) =~= list@.subrange(0, i as int).push(
                        list@[i as int],
                    ));
                    assert(list@.subrange(0, i + 1).map_values(|s: String| entry_triple(s@))
                        =~= list@.subrange(0, i as int).map_values(
                        |s: String| entry_triple(s@),
                    ).push(pv));
                }
            },
            Err(_) => {
                return Err(PlanError::MalformedPartition { index: i });
            },
        }
        i = i + 1;
    }
    assert(list@.subrange(0, list@.len() as int) =~= list@);
    Ok(specs)
}

/// The user-creation stage: one account per configured user, in order.
pub fn user_actions(users: &Vec<User>) -> (r: Vec<Action>)
    ensures
        steps_of(r@) == user_stage(users@),
{
    let mut r: Vec<Action> = Vec::new();
    let mut i: usize = 0;
    while i < users.len()
        invariant
            i <= users@.len(),
            steps_of(r@) == user_stage(users@.subrange(0, i as int)),
        decreases users@.len() - i,
    {
        let u = &users[i];
        let a = Action::NewUser { name: u.name.clone(), hasroot: u.hasroot, password: u.password.clone() };
        assert(a@ == user_step(users@[i as int]));
        let ghost before = r@;
        r.push(a);
        proof {
            assert(users@.subrange(0, i + 1) =~= users@.subrange(0, i as int).push(users@[i as int]));
            assert(steps_of(r@) =~= steps_of(before).push(a@));
            assert(user_stage(users@.subrange(0, i + 1)) =~= user_stage(
                users@.subrange(0, i as int),
            ).push(a@));
        }
        i = i + 1;
    }
    assert(users@.subrange(0, users@.len() as int) =~= users@);
    r
}

/// The bootloader stage of a configuration whose bootloader type is known.
pub fn bootloader_actions(c: &Config) -> (r: Vec<Action>)
    requires
        bootloader_known(c.bootloader.kind@),
    ensures
        steps_of(r@) == bootloader_stage(c),
{
    if same_text(c.bootloader.kind.as_str(), "grub-efi") {
        install_bootloader_efi(c.bootloader.location.as_str())
    } else {
        install_bootloader_legacy(c.bootloader.location.as_str())
    }
}

/// The locale stage: locales, then keymap, then timezone.
pub fn locale_actions(c: &Config) -> (r: Vec<Action>)
    ensures
        steps_of(r@) == locale_stage(c),
{
    let r = vec![
        Action::SetLocale { locales: join_locales(&c.locale.locale) },
        Action::SetKeyboard { keymap: c.locale.keymap.clone() },
        Action::SetTimezone { timezone: c.locale.timezone.clone() },
    ];
    assert(steps_of(r@) =~= locale_stage(c));
    r
}

/// The networking stage: hostname, hosts file, and IPv6 when asked for.
pub fn network_actions(c: &Config) -> (r: Vec<Action>)
    ensures
        steps_of(r@) == network_stage(c),
{
    let mut r = vec![
        Action::SetHostname { hostname: c.networking.hostname.clone() },
        Action::CreateHosts,
    ];
    if c.networking.ipv6 {
        push_one(&mut r, Action::EnableIpv6);
    }
    assert(steps_of(r@) =~= network_stage(c));
    r
}

/// The stages after the root password: the desktop when one is selected, the
/// optional features whose flags are set, and the extra packages.
pub fn final_actions(c: &Config) -> (r: Vec<Action>)
    ensures
        steps_of(r@) == desktop_stage(c) + feature_stage(c) + seq![extra_step(c)],
{
    let mut r: Vec<Action> = Vec::new();
    match c.desktop {
        Some(d) => {
            push_one(&mut r, Action::InstallDesktop { desktop: d });
        },
        None => {},
    }
    assert(steps_of(r@) =~= desktop_stage(c));
    let ghost desk = steps_of(r@);
    if c.timeshift {
        push_one(&mut r, Action::SetupTimeshift);
    }
    if c.flatpak {
        push_one(&mut r, Action::InstallFlatpak);
    }
    assert(steps_of(r@) =~= desk + feature_stage(c));
    let ghost feat = steps_of(r@);
    push_one(&mut r, Action::Install { packages: copy_strings(&c.extra_packages) });
    assert(steps_of(r@) =~= feat + seq![extra_step(c)]);
    r
}

/// The partition stage: in manual mode the parsed entries go with it, in
/// automatic mode none do.
fn partition_action(c: &Config) -> (r: Result<Action, PlanError>)
    ensures
        r is Ok <==> partitions_ok(c),
        r matches Ok(a) ==> a@ == partition_step(c),
        r matches Err(e) ==> e matches PlanError::MalformedPartition { index }
            && c.partition.mode == PartitionMode::Manual && first_malformed(
            c.partition.partitions@,
            index as int,
        ),
{
    let manual = c.partition.mode == PartitionMode::Manual;
    let specs = if manual {
        match parse_partitions(&c.partition.partitions) {
            Ok(v) => v,
            Err(e) => {
                return Err(e);
            },
        }
    } else {
        Vec::new()
    };
    let a = Action::Partition {
        device: resolve_device(c.partition.device.as_str()),
        mode: c.partition.mode,
        efi: c.partition.efi,
        partitions: specs,
    };
    assert(a@ == partition_step(c)) by {
        if !manual {
            assert(specs@.map_values(|p: PartitionSpec| spec_view(p)) =~= Seq::empty());
        }
    }
    Ok(a)
}

/// Turns a configuration into the ordered list of operations that install it.
/// Everything that can be refused is checked before any operation is listed:
/// first the manual partition entries, in order, then the bootloader type.
pub fn plan(c: &Config) -> (r: Result<Vec<Action>, PlanError>)
    ensures
        r is Ok <==> partitions_ok(c) && bootloader_known(c.bootloader.kind@),
        r matches Ok(v) ==> steps_of(v@) == steps(c),
        r matches Err(e) ==> refusal(c, e),
{
    let partition = match partition_action(c) {
        Ok(a) => a,
        Err(e) => {
            return Err(e);
        },
    };
    if !same_text(c.bootloader.kind.as_str(), "grub-efi") && !same_text(
        c.bootloader.kind.as_str(),
        "grub-legacy",
    ) {
        return Err(PlanError::UnknownBootloader);
    }
    let mut v: Vec<Action> = Vec::new();
    push_one(&mut v, partition);
    push_all(&mut v, install_base_packages());
    push_one(&mut v, genfstab());
    push_all(&mut v, bootloader_actions(c));
    push_all(&mut v, locale_actions(c));
    push_all(&mut v, network_actions(c));
    push_all(&mut v, user_actions(&c.users));
    push_one(&mut v, Action::RootPass { password: c.rootpass.clone() });
    proof {
        assert(steps_of(v@) =~= core_steps(c));
    }
    push_all(&mut v, final_actions(c));
    proof {
        assert(steps_of(v@) =~= steps(c));
    }
    Ok(v)
}

} // verus!
