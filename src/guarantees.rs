//! What every installation plan guarantees about its operations and their order.
use vstd::prelude::*;
use crate::config::Config;
use crate::plan::{
    base_stage, bootloader_stage, core_steps, desktop_stage, efi_install_step, extra_step,
    feature_stage, fstab_step, is_efi_kind, is_legacy_kind, legacy_install_step, locale_stage,
    network_stage, partition_step, steps, user_stage, user_step, Step,
};

verus! {

/// `s` is a `grub-install` run whose first argument is `target`.
pub open spec fn is_grub_install(s: Step, target: Seq<char>) -> bool {
    s matches Step::Run { program, args, .. } && program == "grub-install"@ && args.len() > 0
        && args[0] == target
}

/// No step of `s` satisfies `p`.
pub open spec fn none_of(s: Seq<Step>, p: spec_fn(Step) -> bool) -> bool {
    forall|i: int| 0 <= i < s.len() ==> !p(#[trigger] s[i])
}

proof fn lemma_none_of_add(a: Seq<Step>, b: Seq<Step>, p: spec_fn(Step) -> bool)
    requires
        none_of(a, p),
        none_of(b, p),
    ensures
        none_of(a + b, p),
{
    assert forall|i: int| 0 <= i < (a + b).len() implies !p(#[trigger] (a + b)[i]) by {
        if i >= a.len() {
            assert((a + b)[i] == b[i - a.len()]);
        }
    }
}

/// The steps after the bootloader stage up to the root password.
spec fn middle(c: &Config) -> Seq<Step> {
    locale_stage(c) + network_stage(c) + user_stage(c.users@) + seq![
        Step::RootPass { password: c.rootpass@ },
    ]
}

spec fn tail(c: &Config) -> Seq<Step> {
    desktop_stage(c) + feature_stage(c) + seq![extra_step(c)]
}

spec fn head(c: &Config) -> Seq<Step> {
    seq![partition_step(c)] + base_stage() + seq![fstab_step()]
}

proof fn lemma_layout(c: &Config)
    ensures
        steps(c) == head(c) + bootloader_stage(c) + middle(c) + tail(c),
        core_steps(c) == head(c) + bootloader_stage(c) + middle(c),
{
    assert(core_steps(c) =~= head(c) + bootloader_stage(c) + middle(c));
    assert(steps(c) =~= head(c) + bootloader_stage(c) + middle(c) + tail(c));
}

proof fn lemma_users_are_new_users(users: Seq<crate::config::User>)
    ensures
        forall|i: int| 0 <= i < user_stage(users).len() ==> (#[trigger] user_stage(users)[i]) is NewUser,
        user_stage(users).len() == users.len(),
{
}

/// Nothing outside the fstab and bootloader stages runs a program.
proof fn lemma_runs_outside(c: &Config)
    ensures
        none_of(head(c).drop_last(), |s: Step| s is Run),
        head(c).last() == fstab_step(),
        head(c).len() == 5,
        none_of(middle(c), |s: Step| s is Run),
        none_of(tail(c), |s: Step| s is Run),
{
    let p = |s: Step| s is Run;
    assert(head(c).drop_last() =~= seq![partition_step(c)] + base_stage());
    lemma_none_of_add(seq![partition_step(c)], base_stage(), p);
    lemma_users_are_new_users(c.users@);
    lemma_none_of_add(locale_stage(c), network_stage(c), p);
    lemma_none_of_add(locale_stage(c) + network_stage(c), user_stage(c.users@), p);
    lemma_none_of_add(
        locale_stage(c) + network_stage(c) + user_stage(c.users@),
        seq![Step::RootPass { password: c.rootpass@ }],
        p,
    );
    lemma_none_of_add(desktop_stage(c), feature_stage(c), p);
    lemma_none_of_add(desktop_stage(c) + feature_stage(c), seq![extra_step(c)], p);
}

proof fn lemma_literal_lengths()
    ensures
        "grub-install"@ != "genfstab"@,
        "grub-install"@ != "grub-mkconfig"@,
        "--target=i386-pc"@ != "--target=x86_64-efi"@,
        "grub-efi"@ != "grub-legacy"@,
{
    reveal_strlit("grub-install");
    reveal_strlit("genfstab");
    reveal_strlit("grub-mkconfig");
    reveal_strlit("--target=i386-pc");
    reveal_strlit("--target=x86_64-efi");
    reveal_strlit("grub-efi");
    reveal_strlit("grub-legacy");
    assert("grub-install"@.len() == 12);
    assert("genfstab"@.len() == 8);
    assert("grub-mkconfig"@.len() == 13);
    assert("--target=i386-pc"@.len() == 16);
    assert("--target=x86_64-efi"@.len() == 19);
    assert("grub-efi"@.len() == 8);
    assert("grub-legacy"@.len() == 11);
}

/// With the `grub-efi` type, the plan installs `grub` and `efibootmgr`, installs
/// the EFI bootloader for `x86_64-efi` with the identity `crystal` into the
/// configured EFI directory, and never installs the legacy bootloader.
pub proof fn lemma_efi_branch(c: &Config)
    requires
        is_efi_kind(c.bootloader.kind@),
    ensures
        steps(c).contains(Step::Install { packages: seq!["grub"@, "efibootmgr"@] }),
        steps(c).contains(efi_install_step(c.bootloader.location@)),
        forall|i: int|
            0 <= i < steps(c).len() ==> !is_grub_install(#[trigger] steps(c)[i], "--target=i386-pc"@),
{
    lemma_literal_lengths();
    lemma_layout(c);
    lemma_runs_outside(c);
    let s = steps(c);
    let b = bootloader_stage(c);
    assert(s[5] == b[0]);
    assert(s[6] == b[1]);
    assert forall|i: int| 0 <= i < s.len() implies !is_grub_install(
        #[trigger] s[i],
        "--target=i386-pc"@,
    ) by {
        let hb = head(c) + b;
        let hbm = hb + middle(c);
        if i < 4 {
            assert(s[i] == head(c).drop_last()[i]);
        } else if i == 4 {
            assert(s[i] == fstab_step());
        } else if i < 8 {
            assert(s[i] == b[i - 5]);
        } else if i < hbm.len() {
            assert(s[i] == middle(c)[i - 8]);
        } else {
            assert(s[i] == tail(c)[i - hbm.len()]);
        }
    }
}

/// With the `grub-legacy` type, the plan installs `grub`, installs the legacy
/// bootloader for `i386-pc` onto the configured device, and never installs the
/// EFI bootloader.
pub proof fn lemma_legacy_branch(c: &Config)
    requires
        is_legacy_kind(c.bootloader.kind@),
    ensures
        steps(c).contains(Step::Install { packages: seq!["grub"@] }),
        steps(c).contains(legacy_install_step(c.bootloader.location@)),
        forall|i: int|
            0 <= i < steps(c).len() ==> !is_grub_install(
                #[trigger] steps(c)[i],
                "--target=x86_64-efi"@,
            ),
{
    lemma_literal_lengths();
    assert(!is_efi_kind(c.bootloader.kind@));
    lemma_layout(c);
    lemma_runs_outside(c);
    let s = steps(c);
    let b = bootloader_stage(c);
    assert(s[5] == b[0]);
    assert(s[6] == b[1]);
    assert forall|i: int| 0 <= i < s.len() implies !is_grub_install(
        #[trigger] s[i],
        "--target=x86_64-efi"@,
    ) by {
        let hb = head(c) + b;
        let hbm = hb + middle(c);
        if i < 4 {
            assert(s[i] == head(c).drop_last()[i]);
        } else if i == 4 {
            assert(s[i] == fstab_step());
        } else if i < 8 {
            assert(s[i] == b[i - 5]);
        } else if i < hbm.len() {
            assert(s[i] == middle(c)[i - 8]);
        } else {
            assert(s[i] == tail(c)[i - hbm.len()]);
        }
    }
}

/// `x` occurs exactly once in `s`, strictly between positions `lo` and `hi`.
pub open spec fn once_between(s: Seq<Step>, x: Step, lo: int, hi: int) -> bool {
    exists|i: int|
        lo < i < hi && s[i] == x && forall|j: int| 0 <= j < s.len() && j != i ==> #[trigger] s[j] != x
}

/// The position of the root-password step in a plan.
pub open spec fn root_index(c: &Config) -> int {
    core_steps(c).len() - 1
}

/// Everything before the user-creation stage.
spec fn before_users(c: &Config) -> Seq<Step> {
    head(c) + bootloader_stage(c) + locale_stage(c) + network_stage(c)
}

proof fn lemma_core_layout(c: &Config)
    ensures
        core_steps(c) == before_users(c) + user_stage(c.users@) + seq![
            Step::RootPass { password: c.rootpass@ },
        ],
        steps(c) == core_steps(c) + tail(c),
        none_of(before_users(c), |s: Step| s is NewUser || s is RootPass || s is SetupTimeshift || s is InstallFlatpak),
        none_of(tail(c), |s: Step| s is NewUser || s is RootPass),
        none_of(desktop_stage(c), |s: Step| s is SetupTimeshift || s is InstallFlatpak),
{
    let p = |s: Step| s is NewUser || s is RootPass || s is SetupTimeshift || s is InstallFlatpak;
    let q = |s: Step| s is NewUser || s is RootPass;
    assert(core_steps(c) =~= before_users(c) + user_stage(c.users@) + seq![
        Step::RootPass { password: c.rootpass@ },
    ]);
    assert(steps(c) =~= core_steps(c) + tail(c));
    lemma_none_of_add(seq![partition_step(c)], base_stage(), p);
    lemma_none_of_add(seq![partition_step(c)] + base_stage(), seq![fstab_step()], p);
    lemma_none_of_add(head(c), bootloader_stage(c), p);
    lemma_none_of_add(head(c) + bootloader_stage(c), locale_stage(c), p);
    lemma_none_of_add(head(c) + bootloader_stage(c) + locale_stage(c), network_stage(c), p);
    lemma_none_of_add(desktop_stage(c), feature_stage(c), q);
    lemma_none_of_add(desktop_stage(c) + feature_stage(c), seq![extra_step(c)], q);
}

/// The optional features run only when their flags are set: a feature whose
/// flag is clear never runs, and one whose flag is set runs exactly once, after
/// the root password is set and before the extra packages are installed, which
/// is the last step.
pub proof fn lemma_optional_features(c: &Config)
    ensures
        steps(c)[root_index(c)] == (Step::RootPass { password: c.rootpass@ }),
        steps(c).last() == extra_step(c),
        !c.timeshift ==> none_of(steps(c), |s: Step| s is SetupTimeshift),
        !c.flatpak ==> none_of(steps(c), |s: Step| s is InstallFlatpak),
        c.timeshift ==> once_between(
            steps(c),
            Step::SetupTimeshift,
            root_index(c),
            steps(c).len() - 1,
        ),
        c.flatpak ==> once_between(steps(c), Step::InstallFlatpak, root_index(c), steps(c).len() - 1),
{
    lemma_core_layout(c);
    lemma_users_are_new_users(c.users@);
    let s = steps(c);
    let core = core_steps(c);
    let bu = before_users(c);
    let us = user_stage(c.users@);
    let d = desktop_stage(c);
    let f = feature_stage(c);
    let t = tail(c);
    assert(core.len() == bu.len() + us.len() + 1);
    assert(t =~= d + f + seq![extra_step(c)]);
    assert(s[root_index(c)] == core[root_index(c)]);
    assert(s.last() == t.last());
    // no feature runs up to the root password
    assert forall|j: int| 0 <= j < core.len() implies !(#[trigger] s[j] is SetupTimeshift)
        && !(s[j] is InstallFlatpak) by {
        assert(s[j] == core[j]);
        if j < bu.len() {
            assert(core[j] == bu[j]);
        } else if j < bu.len() + us.len() {
            assert(core[j] == us[j - bu.len()]);
        }
    }
    assert forall|j: int| core.len() <= j < s.len() implies (#[trigger] s[j] is SetupTimeshift
        ==> c.timeshift && j == core.len() + d.len()) && (s[j] is InstallFlatpak ==> c.flatpak && j
        == core.len() + d.len() + f.len() - 1) by {
        let k = j - core.len();
        assert(s[j] == t[k]);
        if k < d.len() {
            assert(t[k] == d[k]);
        } else if k < d.len() + f.len() {
            assert(t[k] == f[k - d.len()]);
        } else {
            assert(t[k] == extra_step(c));
        }
    }
    if c.timeshift {
        let i = (core.len() + d.len()) as int;
        assert(s[i] == t[d.len() as int]);
        assert(t[d.len() as int] == f[0]);
        assert(s[i] == Step::SetupTimeshift);
    }
    if c.flatpak {
        let i = core.len() + d.len() + f.len() - 1;
        assert(s[i] == t[d.len() + f.len() - 1]);
        assert(t[d.len() + f.len() - 1] == f[f.len() - 1]);
        assert(s[i] == Step::InstallFlatpak);
    }
}

/// The accounts are created in the order in which the configuration lists them,
/// right before the root password; the root password is set exactly once, and
/// no account is created anywhere else.
pub proof fn lemma_users_then_root(c: &Config)
    ensures
        c.users@.len() <= root_index(c),
        forall|k: int|
            0 <= k < c.users@.len() ==> steps(c)[root_index(c) - c.users@.len() + k] == user_step(
                #[trigger] c.users@[k],
            ),
        steps(c)[root_index(c)] == (Step::RootPass { password: c.rootpass@ }),
        forall|j: int|
            0 <= j < steps(c).len() && j != root_index(c) ==> !(#[trigger] steps(c)[j] is RootPass),
        forall|j: int|
            0 <= j < steps(c).len() && (#[trigger] steps(c)[j] is NewUser) ==> root_index(c)
                - c.users@.len() <= j < root_index(c),
{
    lemma_core_layout(c);
    lemma_users_are_new_users(c.users@);
    let s = steps(c);
    let core = core_steps(c);
    let bu = before_users(c);
    let us = user_stage(c.users@);
    let t = tail(c);
    assert(core.len() == bu.len() + us.len() + 1);
    assert forall|k: int| 0 <= k < c.users@.len() implies s[root_index(c) - c.users@.len() + k]
        == user_step(#[trigger] c.users@[k]) by {
        let j = bu.len() + k;
        assert(s[j] == core[j]);
        assert(core[j] == us[k]);
    }
    assert(s[root_index(c)] == core[root_index(c)]);
    assert forall|j: int| 0 <= j < s.len() && j != root_index(c) implies !(
    #[trigger] s[j] is RootPass) && (s[j] is NewUser ==> bu.len() <= j < root_index(c)) by {
        if j < core.len() {
            assert(s[j] == core[j]);
            if j < bu.len() {
                assert(core[j] == bu[j]);
            } else {
                assert(core[j] == us[j - bu.len()]);
            }
        } else {
            assert(s[j] == t[j - core.len()]);
        }
    }
}

} // verus!
