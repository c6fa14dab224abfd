use init_core::batch_run::{InstallError, InstallTarget};
use init_core::installer::{Installer, LogEntry, Next, Phase};
use init_core::managers::ManagerKind;
use init_core::manifest::{group_by_category, App, PackageMap};
use init_core::queue::{build_queue, is_installable};

fn app(id: &str, category: Option<&str>, packages: &[(&str, &str)]) -> App {
    let mut map = PackageMap::new();
    for (k, v) in packages {
        map.insert(k.to_string(), v.to_string());
    }
    App {
        id: id.to_string(),
        name: id.to_uppercase(),
        description: None,
        icon: None,
        category: category.map(|c| c.to_string()),
        packages: map,
    }
}

fn ids(v: &[&str]) -> Vec<String> {
    v.iter().map(|s| s.to_string()).collect()
}

fn batch_of(next: Next) -> (ManagerKind, Vec<String>) {
    match next {
        Next::Install(b) => (b.manager, b.packages),
        Next::Done => panic!("expected a batch"),
    }
}

#[test]
fn firefox_on_arch_without_aur_helper() {
    let apps = vec![app(
        "firefox",
        None,
        &[("pacman", "firefox"), ("winget", "Mozilla.Firefox")],
    )];
    let mut inst = Installer::new(apps, vec![ManagerKind::Pacman]);
    inst.toggle("firefox".to_string(), true);
    let next = inst.start_install();
    assert_eq!(batch_of(next), (ManagerKind::Pacman, ids(&["firefox"])));
    assert_eq!(inst.total_tasks(), 1);
    assert_eq!(inst.progress(), (0, 1));
    assert_eq!(inst.current_batch(), Some((ManagerKind::Pacman, 1)));
    let next = inst.install_finished(Ok(()));
    assert!(matches!(next, Next::Done));
    assert!(inst
        .log()
        .iter()
        .any(|e| matches!(e, LogEntry::BatchSucceeded { manager: ManagerKind::Pacman })));
    assert!(matches!(inst.log().last(), Some(LogEntry::AllCompleted)));
    assert_eq!(inst.progress(), (1, 1));
    assert_eq!(inst.phase(), Phase::Drained);
    assert_eq!(inst.current_batch(), None);
}

#[test]
fn same_backend_apps_share_one_batch() {
    let apps = vec![
        app("vim", None, &[("pacman", "vim")]),
        app("git", None, &[("pacman", "git"), ("flatpak", "org.git")]),
    ];
    let queue = build_queue(&apps, &vec![ManagerKind::Pacman, ManagerKind::Flatpak], &ids(&["vim", "git"]));
    assert_eq!(queue.len(), 1);
    assert_eq!(queue[0].manager, ManagerKind::Pacman);
    assert_eq!(queue[0].packages, ids(&["vim", "git"]));
}

#[test]
fn unmatched_selection_finishes_at_once() {
    let apps = vec![app("notepad", None, &[("winget", "Notepad++.Notepad++")])];
    let mut inst = Installer::new(apps, vec![ManagerKind::Pacman, ManagerKind::Flatpak]);
    inst.toggle("notepad".to_string(), true);
    let next = inst.start_install();
    assert!(matches!(next, Next::Done));
    assert_eq!(inst.total_tasks(), 0);
    assert_eq!(inst.log().len(), 1);
    assert!(matches!(inst.log()[0], LogEntry::NoCompatiblePackages));
    assert_eq!(inst.progress(), (1, 1));
    assert_eq!(inst.phase(), Phase::Drained);
}

#[test]
fn servable_app_goes_to_first_matching_backend() {
    let apps = vec![app("gimp", None, &[("flatpak", "org.gimp.GIMP"), ("paru", "gimp")])];
    let managers = vec![ManagerKind::Paru, ManagerKind::Flatpak];
    let queue = build_queue(&apps, &managers, &ids(&["gimp"]));
    assert_eq!(queue.len(), 1);
    assert_eq!(queue[0].manager, ManagerKind::Paru);
    assert_eq!(queue[0].packages, ids(&["gimp"]));
    let queue = build_queue(&apps, &vec![ManagerKind::Flatpak, ManagerKind::Paru], &ids(&["gimp"]));
    assert_eq!(queue[0].manager, ManagerKind::Flatpak);
    assert_eq!(queue[0].packages, ids(&["org.gimp.GIMP"]));
}

#[test]
fn unservable_app_leaves_queue_unchanged() {
    let apps = vec![
        app("vim", None, &[("pacman", "vim")]),
        app("notepad", None, &[("winget", "Notepad")]),
    ];
    let managers = vec![ManagerKind::Pacman];
    let with = build_queue(&apps, &managers, &ids(&["vim", "notepad", "missing"]));
    let without = build_queue(&apps, &managers, &ids(&["vim"]));
    assert_eq!(with.len(), without.len());
    assert_eq!(with[0].packages, without[0].packages);
    assert!(build_queue(&apps, &managers, &ids(&["notepad"])).is_empty());
}

#[test]
fn batches_follow_detection_order() {
    let apps = vec![
        app("gimp", None, &[("flatpak", "org.gimp.GIMP")]),
        app("vim", None, &[("pacman", "vim")]),
    ];
    let queue = build_queue(&apps, &vec![ManagerKind::Pacman, ManagerKind::Flatpak], &ids(&["gimp", "vim"]));
    assert_eq!(queue.len(), 2);
    assert_eq!(queue[0].manager, ManagerKind::Pacman);
    assert_eq!(queue[1].manager, ManagerKind::Flatpak);
}

#[test]
fn progress_counts_completed_batches() {
    let apps = vec![
        app("gimp", None, &[("flatpak", "org.gimp.GIMP")]),
        app("vim", None, &[("pacman", "vim")]),
    ];
    let mut inst = Installer::new(apps, vec![ManagerKind::Pacman, ManagerKind::Flatpak]);
    inst.toggle("gimp".to_string(), true);
    inst.toggle("vim".to_string(), true);
    assert_eq!(inst.progress(), (1, 1));
    let first = batch_of(inst.start_install());
    assert_eq!(first, (ManagerKind::Pacman, ids(&["vim"])));
    assert_eq!(inst.progress(), (0, 2));
    let failure = InstallError::BackendFailed {
        manager: ManagerKind::Pacman,
        target: InstallTarget::Package("vim".to_string()),
        detail: String::new(),
    };
    let second = batch_of(inst.install_finished(Err(failure)));
    assert_eq!(second, (ManagerKind::Flatpak, ids(&["org.gimp.GIMP"])));
    assert_eq!(inst.progress(), (1, 2));
    assert_eq!(inst.completed_tasks(), 1);
    assert!(inst
        .log()
        .iter()
        .any(|e| matches!(e, LogEntry::BatchFailed { manager: ManagerKind::Pacman, .. })));
    assert!(matches!(inst.install_finished(Ok(())), Next::Done));
    assert_eq!(inst.progress(), (2, 2));
}

#[test]
fn finish_without_batch_changes_nothing() {
    let mut inst = Installer::new(Vec::new(), vec![ManagerKind::Pacman]);
    assert!(matches!(inst.install_finished(Ok(())), Next::Done));
    assert_eq!(inst.phase(), Phase::Idle);
    assert!(inst.log().is_empty());
}

#[test]
fn toggle_off_removes_every_occurrence() {
    let mut inst = Installer::new(Vec::new(), vec![ManagerKind::Pacman]);
    inst.toggle("a".to_string(), true);
    inst.toggle("b".to_string(), true);
    inst.toggle("a".to_string(), true);
    assert_eq!(inst.selected(), &ids(&["a", "b", "a"]));
    assert!(inst.is_selected(&"b".to_string()));
    inst.toggle("a".to_string(), false);
    assert_eq!(inst.selected(), &ids(&["b"]));
    assert!(!inst.is_selected(&"a".to_string()));
}

#[test]
fn installable_when_any_backend_matches() {
    let a = app("gimp", None, &[("flatpak", "org.gimp.GIMP")]);
    assert!(is_installable(&a, &vec![ManagerKind::Pacman, ManagerKind::Flatpak]));
    assert!(!is_installable(&a, &vec![ManagerKind::Pacman]));
}

#[test]
fn groups_by_category_in_order() {
    let apps = vec![
        app("a", Some("Web"), &[]),
        app("b", None, &[]),
        app("c", Some("Web"), &[]),
    ];
    let groups = group_by_category(&apps);
    assert_eq!(groups.len(), 2);
    assert_eq!(groups[0], ("Web".to_string(), vec![0, 2]));
    assert_eq!(groups[1], ("General".to_string(), vec![1]));
}

#[test]
fn package_map_insert_and_get() {
    let mut map = PackageMap::new();
    assert_eq!(map.get("pacman"), None);
    map.insert("pacman".to_string(), "firefox".to_string());
    map.insert("winget".to_string(), "Mozilla.Firefox".to_string());
    assert_eq!(map.get("pacman"), Some(&"firefox".to_string()));
    map.insert("pacman".to_string(), "firefox-esr".to_string());
    assert_eq!(map.get("pacman"), Some(&"firefox-esr".to_string()));
    assert!(map.contains_key("winget"));
    assert!(!map.contains_key("flatpak"));
    assert_eq!(map.pairs().len(), 2);
}
