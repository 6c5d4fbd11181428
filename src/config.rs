//! The typed configuration that drives an installation run.
use vstd::prelude::*;

verus! {

/// How the target disk is partitioned.
#[derive(Clone, Copy, Debug, PartialEq, Eq, Structural)]
pub enum PartitionMode {
    /// Erase the whole disk and lay it out automatically.
    Auto,
    /// Use the partitions listed in the configuration.
    Manual,
}

/// The desktop environments that can be selected.
#[derive(Clone, Copy, Debug, PartialEq, Eq, Structural)]
pub enum DesktopSetup {
    Onyx,
    Gnome,
    Kde,
    Budgie,
    Cinnamon,
    Mate,
    Xfce,
    Enlightenment,
    Lxqt,
    Sway,
    I3,
    Herbstluftwm,
    Awesome,
    Bspwm,
}

/// The target disk and how to lay it out.
#[derive(Clone, Debug, PartialEq, Eq)]
pub struct Partition {
    /// Block device name, relative to `/dev/` unless it is an absolute path.
    pub device: String,
    pub mode: PartitionMode,
    pub efi: bool,
    /// Entries of the form `device:mountpoint:filesystem`; read in manual mode only.
    pub partitions: Vec<String>,
}

/// Which bootloader flavour to install, and where.
#[derive(Clone, Debug, PartialEq, Eq)]
pub struct Bootloader {
    /// `grub-efi` or `grub-legacy`.
    pub kind: String,
    /// The EFI directory for `grub-efi`, the raw device for `grub-legacy`.
    pub location: String,
}

#[derive(Clone, Debug, PartialEq, Eq)]
pub struct Locale {
    pub locale: Vec<String>,
    pub keymap: String,
    pub timezone: String,
}

#[derive(Clone, Debug, PartialEq, Eq)]
pub struct Networking {
    pub hostname: String,
    pub ipv6: bool,
}

/// An account to create on the target system.
#[derive(Clone, Debug, PartialEq, Eq)]
pub struct User {
    pub name: String,
    pub password: String,
    /// Whether the account gets administrative privileges.
    pub hasroot: bool,
}

/// The whole description of the machine to install.
#[derive(Clone, Debug, PartialEq, Eq)]
pub struct Config {
    pub partition: Partition,
    pub bootloader: Bootloader,
    pub locale: Locale,
    pub networking: Networking,
    pub users: Vec<User>,
    pub rootpass: String,
    pub desktop: Option<DesktopSetup>,
    pub timeshift: bool,
    pub flatpak: bool,
    pub extra_packages: Vec<String>,
}

} // verus!
