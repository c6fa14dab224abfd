use init_core::batch_run::{InstallError, InstallRun, InstallTarget};
use init_core::detectors::{detect_managers, OsKind};
use init_core::managers::flatpak::Flatpak;
use init_core::managers::pacman::Pacman;
use init_core::managers::paru::Paru;
use init_core::managers::winget::Winget;
use init_core::managers::{managers_label, ManagerKind};
use init_core::{Invocation, PackageManager};

fn strs(v: &[&str]) -> Vec<String> {
    v.iter().map(|s| s.to_string()).collect()
}

fn line(c: &Invocation) -> (String, Vec<String>) {
    (c.program.clone(), c.args.clone())
}

#[test]
fn ids_and_names() {
    assert_eq!(Pacman.id(), "pacman");
    assert_eq!(Paru.id(), "paru");
    assert_eq!(Flatpak.id(), "flatpak");
    assert_eq!(Winget.id(), "winget");
    assert_eq!(Pacman.name(), "Pacman");
    assert_eq!(Paru.name(), "Paru (AUR Helper)");
    assert_eq!(Flatpak.name(), "Flatpak");
    assert_eq!(ManagerKind::Paru.id(), "paru");
    assert_eq!(ManagerKind::Winget.name(), "Winget");
}

#[test]
fn availability_check_runs_version() {
    let c = Flatpak.availability_check();
    assert_eq!(line(&c), ("flatpak".to_string(), strs(&["--version"])));
    let c = ManagerKind::Pacman.availability_check();
    assert_eq!(line(&c), ("pacman".to_string(), strs(&["--version"])));
}

#[test]
fn single_install_commands() {
    assert_eq!(
        line(&Pacman.install("firefox")),
        ("pacman".to_string(), strs(&["-S", "--noconfirm", "--needed", "firefox"]))
    );
    assert_eq!(
        line(&Paru.install("yay-bin")),
        ("paru".to_string(), strs(&["-S", "--noconfirm", "--needed", "yay-bin"]))
    );
    assert_eq!(
        line(&Flatpak.install("org.gimp.GIMP")),
        ("flatpak".to_string(), strs(&["install", "-y", "--noninteractive", "org.gimp.GIMP"]))
    );
    assert_eq!(
        line(&Winget.install("Mozilla.Firefox")),
        (
            "winget".to_string(),
            strs(&[
                "install",
                "--exact",
                "--id",
                "Mozilla.Firefox",
                "--silent",
                "--accept-package-agreements",
                "--accept-source-agreements",
            ])
        )
    );
}

#[test]
fn install_many_one_command_per_package() {
    let plan = Pacman.install_many(&strs(&["vim", "git"]));
    assert_eq!(plan.len(), 2);
    assert_eq!(line(&plan[0]), line(&Pacman.install("vim")));
    assert_eq!(line(&plan[1]), line(&Pacman.install("git")));
}

#[test]
fn paru_installs_batch_in_one_command() {
    let plan = Paru.install_many(&strs(&["vim", "git", "htop"]));
    assert_eq!(plan.len(), 1);
    assert_eq!(
        line(&plan[0]),
        ("paru".to_string(), strs(&["-S", "--noconfirm", "--needed", "vim", "git", "htop"]))
    );
}

#[test]
fn empty_batch_needs_no_command_for_any_backend() {
    let none: Vec<String> = Vec::new();
    assert!(Pacman.install_many(&none).is_empty());
    assert!(Paru.install_many(&none).is_empty());
    assert!(Flatpak.install_many(&none).is_empty());
    assert!(Winget.install_many(&none).is_empty());
    for m in [ManagerKind::Pacman, ManagerKind::Paru, ManagerKind::Winget, ManagerKind::Flatpak] {
        let run = InstallRun::new(m, Vec::new());
        assert!(run.next_command().is_none());
        assert!(matches!(run.outcome(), Some(Ok(()))));
    }
}

#[test]
fn run_stops_at_first_failure() {
    let mut run = InstallRun::new(ManagerKind::Pacman, strs(&["a", "b", "c"]));
    assert_eq!(line(run.next_command().unwrap()), line(&Pacman.install("a")));
    run.record(Ok(()));
    assert!(run.outcome().is_none());
    assert_eq!(line(run.next_command().unwrap()), line(&Pacman.install("b")));
    run.record(Err("exit status 1".to_string()));
    assert!(run.next_command().is_none());
    match run.outcome() {
        Some(Err(InstallError::BackendFailed { manager, target, detail })) => {
            assert_eq!(manager, ManagerKind::Pacman);
            assert!(matches!(target, InstallTarget::Package(p) if p == "b"));
            assert_eq!(detail, "exit status 1");
        }
        _ => panic!("expected a failure"),
    }
    run.record(Ok(()));
    assert!(matches!(run.outcome(), Some(Err(_))));
}

#[test]
fn run_succeeds_after_every_command() {
    let mut run = InstallRun::new(ManagerKind::Flatpak, strs(&["x", "y"]));
    run.record(Ok(()));
    run.record(Ok(()));
    assert!(run.next_command().is_none());
    assert!(matches!(run.outcome(), Some(Ok(()))));
}

#[test]
fn batch_failure_names_the_batch() {
    let mut run = InstallRun::new(ManagerKind::Paru, strs(&["a", "b"]));
    run.record(Err(String::new()));
    match run.outcome() {
        Some(Err(e)) => {
            assert!(matches!(
                e,
                InstallError::BackendFailed { target: InstallTarget::Batch, .. }
            ));
            assert_eq!(e.message(), "Paru (AUR Helper) failed to install batch");
        }
        _ => panic!("expected a failure"),
    }
}

#[test]
fn error_message_with_detail() {
    let e = InstallError::BackendFailed {
        manager: ManagerKind::Pacman,
        target: InstallTarget::Package("firefox".to_string()),
        detail: "not found".to_string(),
    };
    assert_eq!(e.message(), "Pacman failed to install firefox: not found");
}

#[test]
fn arch_with_aur_helper_selects_paru() {
    assert_eq!(detect_managers(OsKind::Arch, true, false), vec![ManagerKind::Paru]);
    assert_eq!(detect_managers(OsKind::CachyOS, true, false), vec![ManagerKind::Paru]);
}

#[test]
fn arch_without_aur_helper_selects_pacman() {
    assert_eq!(detect_managers(OsKind::Arch, false, false), vec![ManagerKind::Pacman]);
    assert_eq!(detect_managers(OsKind::Manjaro, false, false), vec![ManagerKind::Pacman]);
}

#[test]
fn windows_and_other_hosts() {
    assert_eq!(detect_managers(OsKind::Windows, true, false), vec![ManagerKind::Winget]);
    assert_eq!(detect_managers(OsKind::Other, true, false), vec![ManagerKind::Pacman]);
}

#[test]
fn flatpak_appended_when_found() {
    assert_eq!(
        detect_managers(OsKind::Windows, false, true),
        vec![ManagerKind::Winget, ManagerKind::Flatpak]
    );
    assert_eq!(
        detect_managers(OsKind::Arch, true, true),
        vec![ManagerKind::Paru, ManagerKind::Flatpak]
    );
    assert!(OsKind::Manjaro.is_arch_family());
    assert!(!OsKind::Windows.is_arch_family());
}

#[test]
fn managers_label_lists_names() {
    assert_eq!(managers_label(&vec![]), "None Detected");
    assert_eq!(managers_label(&vec![ManagerKind::Pacman]), "Pacman");
    assert_eq!(
        managers_label(&vec![ManagerKind::Paru, ManagerKind::Flatpak]),
        "Paru (AUR Helper), Flatpak"
    );
}
