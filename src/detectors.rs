use vstd::prelude::*;
use crate::managers::ManagerKind;

verus! {

/// The host operating system, as far as backend selection cares.
#[derive(Clone, Copy, Debug, PartialEq, Eq, Structural)]
pub enum OsKind {
    Windows,
    Arch,
    Manjaro,
    CachyOS,
    /// Any other or unrecognised system.
    Other,
}

impl OsKind {
    /// Arch Linux and the distributions built on it.
    pub open spec fn spec_is_arch_family(self) -> bool {
        self is Arch || self is Manjaro || self is CachyOS
    }

    /// Whether detection asks if the AUR helper is installed.
    pub fn is_arch_family(&self) -> (r: bool)
        ensures
            r == self.spec_is_arch_family(),
    {
        match self {
            OsKind::Arch | OsKind::Manjaro | OsKind::CachyOS => true,
            _ => false,
        }
    }
}

/// The primary backend: the Windows manager on Windows; on an Arch-family
/// host the AUR helper where it is installed, else pacman; pacman on any
/// other host.
pub open spec fn primary_backend(os: OsKind, aur_helper_found: bool) -> ManagerKind {
    if os is Windows {
        ManagerKind::Winget
    } else if os.spec_is_arch_family() && aur_helper_found {
        ManagerKind::Paru
    } else {
        ManagerKind::Pacman
    }
}

/// The backends of this session, primary first, then Flatpak where its
/// executable was found. `aur_helper_found` only matters on an Arch-family
/// host.
pub fn detect_managers(os: OsKind, aur_helper_found: bool, flatpak_found: bool) -> (r: Vec<
    ManagerKind,
>)
    ensures
        r@ == if flatpak_found {
            seq![primary_backend(os, aur_helper_found), ManagerKind::Flatpak]
        } else {
            seq![primary_backend(os, aur_helper_found)]
        },
        os.spec_is_arch_family() ==> r@[0] == if aur_helper_found {
            ManagerKind::Paru
        } else {
            ManagerKind::Pacman
        },
{
    let mut managers: Vec<ManagerKind> = Vec::new();
    match os {
        OsKind::Windows => managers.push(ManagerKind::Winget),
        OsKind::Arch | OsKind::Manjaro | OsKind::CachyOS => {
            if aur_helper_found {
                managers.push(ManagerKind::Paru);
            } else {
                managers.push(ManagerKind::Pacman);
            }
        },
        OsKind::Other => managers.push(ManagerKind::Pacman),
    }
    if flatpak_found {
        managers.push(ManagerKind::Flatpak);
    }
    assert(managers@ =~= if flatpak_found {
        seq![primary_backend(os, aur_helper_found), ManagerKind::Flatpak]
    } else {
        seq![primary_backend(os, aur_helper_found)]
    });
    managers
}

} // verus!
