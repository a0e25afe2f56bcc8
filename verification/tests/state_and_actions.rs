use blokator::signals::{signal_response, SignalResponse};
use blokator::actions::{
    add_repo_preset_action, apply_hosts, check_allowed_function, copy, del_repo_preset_action,
    exec_command, restore_backup, Actions, ApplyError, CommandAction, PresetRepoError,
    ReadErrorKind, RestoreError,
};
use blokator::arguments::{Args, Commands, RepoArgs, SyncArgs};
use blokator::colors::Colors;
use blokator::file_copy::{apply, backup, restore, ReadFailureReport};
use blokator::logging::{get_global_logger, LogColor, LogType, Logger};
use blokator::messages::Messages;
use blokator::presets::Presets;
use blokator::repos::RepoError;
use blokator::sync::{sync, sync_plan, sync_repositories, SyncError};
use blokator::table::StringTable;

fn table(pairs: &[(&str, &str)]) -> StringTable {
    let mut t = StringTable::new();
    for (k, v) in pairs {
        t.insert(k.to_string(), v.to_string());
    }
    t
}

fn messages() -> Messages {
    Messages {
        message: table(&[("no_action_specified", "Nothing to do"), ("permission_denied", "Denied")]),
        help_message: table(&[("no_action_specified", "Try --help")]),
        restore_message: table(&[("not_found", "no backup")]),
        backup_message: table(&[("not_found", "no hosts")]),
        apply_message: table(&[("not_found", "no local hosts")]),
    }
}

fn args(command: Commands) -> Args {
    Args {
        command,
        apply_android: false,
        android_device: Some("emulator-5554".to_string()),
        list_devices: false,
        restore_android: false,
        list_repos: false,
        add_repo_preset: None,
        del_repo_preset: None,
        tor: false,
        tor_bind_address: "127.0.0.1".to_string(),
        tor_port: 9050,
    }
}

#[test]
fn logger_looks_messages_up() {
    let logger = Logger::new(&messages());
    let e = logger.log_error("no_action_specified");
    assert_eq!(e.label, "error:");
    assert_eq!(e.text, "Nothing to do");
    assert_eq!(e.color, LogColor::Red);
    assert!(e.to_stderr);
    let h = logger.log_help("no_action_specified");
    assert_eq!(h.label, "help:");
    assert_eq!(h.text, "Try --help");
    assert_eq!(h.color, LogColor::Blue);
    assert!(!h.to_stderr);
    let w = logger.log_warning("some free text");
    assert_eq!(w.text, "some free text");
    assert_eq!(w.log_type, LogType::Warning);
    assert!(w.to_stderr);
    let i = logger.log_info("permission_denied");
    assert_eq!(i.text, "Denied");
    assert_eq!(i.color, LogColor::Green);
    let s = get_global_logger(&messages()).log_success("Added and verified the repo.");
    assert_eq!(s.label, "success:");
    assert_eq!(s.text, "Added and verified the repo.");
    assert!(!s.to_stderr);
}

#[test]
fn colors_follow_no_color() {
    for v in [Some("1"), Some("true")] {
        let c = Colors::new(v);
        assert_eq!(c.bold_red, "");
        assert_eq!(c.reset, "");
        assert!(Colors::check_no_color_env(v));
    }
    for v in [None, Some("0"), Some("TRUE"), Some("")] {
        let c = Colors::new(v);
        assert_eq!(c.bold_red, "\x1b[1;31m");
        assert_eq!(c.bold_white, "\x1b[1;40m");
        assert_eq!(c.reset, "\x1b[0m");
        assert!(!Colors::check_no_color_env(v));
    }
}

#[test]
fn copy_reports_read_failures() {
    let m = messages();
    let logger = Logger::new(&m);
    assert_eq!(copy(Ok("hosts".to_string()), Actions::Backup, &logger, &m).unwrap(), "hosts");
    let e = copy(Err(ReadErrorKind::NotFound), Actions::Restore, &logger, &m).unwrap_err();
    assert_eq!(e.text, "no backup");
    let e = copy(Err(ReadErrorKind::NotFound), Actions::Apply, &logger, &m).unwrap_err();
    assert_eq!(e.text, "no local hosts");
    let e = copy(Err(ReadErrorKind::PermissionDenied), Actions::Backup, &logger, &m).unwrap_err();
    assert_eq!(e.text, "Denied");
    let e = copy(Err(ReadErrorKind::Other), Actions::Backup, &logger, &m).unwrap_err();
    assert_eq!(e.text, "unknown_error");
    assert_eq!(e.label, "error:");
}

#[test]
fn applying_the_hosts_file() {
    assert_eq!(apply_hosts(None, Some("etc"), false).unwrap_err(), ApplyError::LocalHostsMissing);
    assert_eq!(apply_hosts(Some("local"), None, false).unwrap_err(), ApplyError::EtcHostsMissing);
    assert_eq!(apply_hosts(Some("same"), Some("same"), false).unwrap_err(), ApplyError::AlreadyApplied);
    let plan = apply_hosts(Some("local"), Some("etc"), false).unwrap();
    assert_eq!(plan.backup, Some("etc".to_string()));
    assert_eq!(plan.hosts, "local");
    let plan = apply_hosts(Some("local"), Some("etc"), true).unwrap();
    assert_eq!(plan.backup, None);
    assert_eq!(plan.hosts, "local");
}

#[test]
fn restoring_the_backup() {
    assert_eq!(restore_backup(None, "hosts").unwrap_err(), RestoreError::NotFound);
    assert_eq!(restore_backup(Some("x"), "x").unwrap_err(), RestoreError::AlreadyRestored);
    assert_eq!(restore_backup(Some("old"), "new").unwrap(), "old");
}

#[test]
fn restore_undoes_apply() {
    let etc = "127.0.0.1 localhost\n";
    let local = "0.0.0.0 ads.example.com\n";
    let plan = apply_hosts(Some(local), Some(etc), false).unwrap();
    let backup = plan.backup.unwrap();
    assert_eq!(restore_backup(Some(&backup), &plan.hosts).unwrap(), etc);
    assert_eq!(apply_hosts(Some(local), Some(&plan.hosts), true).unwrap_err(), ApplyError::AlreadyApplied);
    assert_eq!(restore_backup(Some(&backup), etc).unwrap_err(), RestoreError::AlreadyRestored);
}

#[test]
fn syncing_one_repo() {
    let r = sync(Some("old\n"), "0.0.0.0 a.com");
    assert_eq!(r.hosts, "old\n0.0.0.0 a.com\n\n");
    assert!(!r.error);
    let r = sync(None, "<title>404 Not Found</title>");
    assert_eq!(r.hosts, "<title>404 Not Found</title>");
    assert!(r.error);
}

#[test]
fn sync_plan_skips_empty_lines() {
    assert_eq!(sync_plan("  \n\t\n").unwrap_err(), SyncError::NoReposToSync);
    assert_eq!(sync_plan("").unwrap_err(), SyncError::NoReposToSync);
    let plan = sync_plan("https://a\n\nhttps://b\n").unwrap();
    assert_eq!(plan.repos(), &vec!["https://a".to_string(), "https://b".to_string()]);
    let requests = plan.requests(&args(Commands::ListRepos));
    assert_eq!(requests.len(), 2);
    assert_eq!(requests[0].url, "https://a");
    assert_eq!(requests[0].proxy, None);
    let onion = sync_plan("http://abcdefgh.onion/hosts\nhttps://b").unwrap();
    let requests = onion.requests(&args(Commands::ListRepos));
    assert_eq!(requests[0].proxy, Some("socks5h://127.0.0.1:9050".to_string()));
    assert_eq!(requests[1].proxy, None);
    let mut tor = args(Commands::ListRepos);
    tor.tor = true;
    assert_eq!(onion.requests(&tor)[1].proxy, Some("socks5h://127.0.0.1:9050".to_string()));
}

#[test]
fn syncing_all_repos() {
    let plan = sync_plan("https://a\nhttps://b").unwrap();
    let responses = vec!["a".to_string(), "<title>404 Not Found</title>".to_string()];
    let report = sync_repositories(&plan, "", &responses);
    assert_eq!(report.hosts, "a\n\n<title>404 Not Found</title>\n\n");
    assert_eq!(report.errors, vec![false, true]);
    assert!(report.changed);
    let again = sync_repositories(&plan, &report.hosts, &responses);
    assert_eq!(again.hosts, report.hosts);
    assert!(!again.changed);
}

#[test]
fn commands_choose_actions() {
    assert!(matches!(exec_command(&args(Commands::Sync(SyncArgs {}))), CommandAction::Sync));
    assert!(matches!(exec_command(&args(Commands::Apply)), CommandAction::Apply));
    assert!(matches!(exec_command(&args(Commands::Backup)), CommandAction::Backup));
    assert!(matches!(exec_command(&args(Commands::Restore)), CommandAction::Restore));
    assert!(matches!(exec_command(&args(Commands::ListRepos)), CommandAction::ListRepos));
    match exec_command(&args(Commands::AddRepo(RepoArgs { repo: "https://r".to_string() }))) {
        CommandAction::AddRepo(r) => assert_eq!(r, "https://r"),
        other => panic!("unexpected {:?}", other),
    }
    match exec_command(&args(Commands::DelRepoPreset(RepoArgs { repo: "p".to_string() }))) {
        CommandAction::DelRepoPreset(r) => assert_eq!(r, "p"),
        other => panic!("unexpected {:?}", other),
    }
    match exec_command(&args(Commands::ApplyAndroid)) {
        CommandAction::ApplyAndroid(d) => assert_eq!(d, Some("emulator-5554".to_string())),
        other => panic!("unexpected {:?}", other),
    }
    let mut a = args(Commands::Apply);
    a.list_devices = true;
    assert!(matches!(exec_command(&a), CommandAction::ListDevices));
    let mut a = args(Commands::Apply);
    a.restore_android = true;
    assert!(matches!(exec_command(&a), CommandAction::RestoreAndroid(Some(_))));
    assert!(check_allowed_function(&args(Commands::Sync(SyncArgs {}))));
    assert!(!check_allowed_function(&args(Commands::Apply)));
}

#[test]
fn presets_and_preset_actions() {
    let presets = Presets { preset: table(&[("steven", "https://s"), ("other", "https://o")]) };
    assert_eq!(presets.get("steven".to_string()), Some("https://s".to_string()));
    assert_eq!(presets.get("none".to_string()), None);
    assert_eq!(add_repo_preset_action("none".to_string(), &presets, "").unwrap_err(), PresetRepoError::PresetNotFound);
    assert_eq!(
        add_repo_preset_action("steven".to_string(), &presets, "https://a").unwrap(),
        ("https://s".to_string(), "https://a\nhttps://s".to_string())
    );
    assert_eq!(
        add_repo_preset_action("steven".to_string(), &presets, "https://s").unwrap_err(),
        PresetRepoError::Repo(RepoError::AlreadyExists)
    );
    assert_eq!(
        del_repo_preset_action("other".to_string(), &presets, Some("https://a\nhttps://o\nhttps://b")).unwrap(),
        ("https://o".to_string(), "https://a\nhttps://b".to_string())
    );
    assert_eq!(
        del_repo_preset_action("other".to_string(), &presets, None).unwrap_err(),
        PresetRepoError::Repo(RepoError::ListMissing)
    );
    assert_eq!(
        del_repo_preset_action("other".to_string(), &presets, Some("https://a\nhttps://oo")).unwrap_err(),
        PresetRepoError::Repo(RepoError::NotFound)
    );
    assert_eq!(del_repo_preset_action("x".to_string(), &presets, None).unwrap_err(), PresetRepoError::PresetNotFound);
}

#[test]
fn table_holds_each_key_once() {
    let t = table(&[("k", "first"), ("j", "other"), ("k", "second")]);
    assert_eq!(t.get("k"), Some("second".to_string()));
    assert_eq!(t.get("j"), Some("other".to_string()));
    assert_eq!(t.entries().len(), 2);
    assert!(t.contains_key("k"));
    assert!(!t.contains_key("x"));
}

#[test]
fn interrupts() {
    assert_eq!(signal_response(true, false), SignalResponse::WarnForceKill);
    assert_eq!(signal_response(true, true), SignalResponse::Exit(2));
    assert_eq!(signal_response(false, false), SignalResponse::Exit(1));
    assert_eq!(signal_response(false, true), SignalResponse::Exit(1));
}

fn parts(r: Result<String, ReadFailureReport>) -> (String, String, Option<String>) {
    let rep = r.err().unwrap();
    (rep.lead, rep.separator, rep.help)
}

#[test]
fn file_copies_pass_the_text_through() {
    assert_eq!(backup(Ok("127.0.0.1 localhost\n".to_string())).ok(), Some("127.0.0.1 localhost\n".to_string()));
    assert_eq!(restore(Ok("a".to_string())).ok(), Some("a".to_string()));
    assert_eq!(apply(Ok(String::new())).ok(), Some(String::new()));
}

#[test]
fn file_copy_failures_are_reported_by_kind() {
    assert_eq!(
        parts(backup(Err(ReadErrorKind::NotFound))),
        ("==> Tried to backup the /etc/hosts file, but it doesn't even exist: ".to_string(), ", ".to_string(), None)
    );
    assert_eq!(
        parts(restore(Err(ReadErrorKind::NotFound))),
        ("==> Tried to restore the backup, but it doesn't even exist: ".to_string(), " ".to_string(), None)
    );
    assert_eq!(
        parts(apply(Err(ReadErrorKind::NotFound))),
        (
            "==> Local hosts don't exist: ".to_string(),
            " ".to_string(),
            Some("Help: try to run the adblocker with `--sync` argument".to_string())
        )
    );
    for f in [backup, restore] {
        assert_eq!(parts(f(Err(ReadErrorKind::PermissionDenied))), ("==> Permission denied: ".to_string(), " ".to_string(), None));
        assert_eq!(parts(f(Err(ReadErrorKind::Other))), ("==> Error occurred: ".to_string(), " ".to_string(), None));
    }
    assert_eq!(parts(apply(Err(ReadErrorKind::PermissionDenied))), ("==> Error occurred: ".to_string(), " ".to_string(), None));
    assert_eq!(parts(apply(Err(ReadErrorKind::Other))), ("==> Error occurred: ".to_string(), " ".to_string(), None));
}
