use blokator::actions::{apply_android_action, list_devices_action, restore_android_action};
use blokator::android::{device_model_label, device_ready, send_notification, step_outcome, AndroidError, OnFailure, StepOutcome};
use blokator::config::{already_initialized, data_file, default_repository, get_data_dir, Config};
use blokator::services::{
    networkmanager_exists, networkmanager_openrc_restart, networkmanager_restart,
    networkmanager_runit_restart, networkmanager_s6_restart, networkmanager_systemd_restart,
    restart_networkmanager, Init, NetworkManager, RestartReport, ServiceFiles,
};

const DEVICES: &str = "List of devices attached\nemulator-5554\tdevice\nR58M\tunauthorized\n\n";

#[test]
fn device_readiness() {
    assert!(device_ready(DEVICES, "emulator-5554"));
    assert!(!device_ready(DEVICES, "R58M"));
    assert!(!device_ready(DEVICES, "other"));
    assert!(device_ready("  abc\tdevice  \n", "abc"));
    assert!(!device_ready("", "abc"));
}

#[test]
fn listing_devices() {
    assert!(list_devices_action("List of devices attached\n\n").is_err());
    let devices = list_devices_action(DEVICES).unwrap();
    assert_eq!(devices.len(), 2);
    assert_eq!(devices[0].id, "emulator-5554");
    assert_eq!(devices[0].state, "device");
    assert_eq!(devices[1].id, "R58M");
    assert_eq!(devices[1].state, "unauthorized");
    let devices = list_devices_action("List\nonly-id\n\n").unwrap();
    assert_eq!(devices[0].id, "only-id");
    assert_eq!(devices[0].state, "");
    assert!(list_devices_action("").unwrap().is_empty());
}

#[test]
fn device_models() {
    assert_eq!(device_model_label(""), "unknown model");
    assert_eq!(device_model_label("Pixel 5\n"), "Pixel 5");
    assert_eq!(device_model_label("\n"), "");
}

#[test]
fn android_apply_steps() {
    let ready = "List of devices attached\ndev\tdevice\n\n";
    assert_eq!(
        apply_android_action("dev".to_string(), "/d", "List of devices attached\ndev\tunauthorized\n\n").unwrap_err(),
        AndroidError::DeviceNotReady
    );
    let steps = apply_android_action("dev".to_string(), "/root/.local/share/adblocker", ready).unwrap();
    assert_eq!(steps.len(), 6);
    assert_eq!(steps[0].spinner, "android_mounting_rw");
    assert_eq!(steps[0].args, vec!["-s", "dev", "shell", "su", "-c", "mount", "-o", "rw,remount", "/"]);
    assert_eq!(steps[1].args, vec!["-s", "dev", "push", "/root/.local/share/adblocker/hosts", "/sdcard/hosts"]);
    assert_eq!(steps[2].args, vec!["-s", "dev", "shell", "su", "-c", "'cp", "/etc/hosts", "/etc/hosts.backup'"]);
    assert_eq!(steps[3].args, vec!["-s", "dev", "shell", "su", "-c", "'mv", "/sdcard/hosts", "/etc/hosts'"]);
    assert_eq!(steps[4].args, vec!["-s", "dev", "shell", "su", "-c", "mount", "-o", "ro,remount", "/"]);
    assert_eq!(steps[4].on_failure, OnFailure::Warn);
    assert_eq!(steps[5].args, send_notification("dev"));
    assert_eq!(steps[5].on_failure, OnFailure::StopQuietly);
    assert!(steps[5].silence_stderr);
    assert_eq!(steps[0].failure_text, " Failed to mount system as read & write");
    assert_eq!(steps[0].failure_prefix, "");
}

#[test]
fn android_restore_steps() {
    assert_eq!(restore_android_action("dev".to_string(), DEVICES).unwrap_err(), AndroidError::DeviceNotReady);
    let steps = restore_android_action("dev".to_string(), "List\ndev\tdevice\n").unwrap();
    assert_eq!(steps.len(), 3);
    assert_eq!(steps[1].spinner, "android_restore");
    assert_eq!(steps[1].args, vec!["-s", "dev", "shell", "su", "-c", "'cp", "/etc/hosts.backup", "/etc/hosts'"]);
    assert_eq!(steps[0].failure_prefix, "  ");
    assert_eq!(steps[2].on_failure, OnFailure::Warn);
}

#[test]
fn step_outcomes() {
    assert_eq!(step_outcome(OnFailure::Abort, true), StepOutcome::Continue);
    assert_eq!(step_outcome(OnFailure::Abort, false), StepOutcome::Exit(1));
    assert_eq!(step_outcome(OnFailure::Warn, false), StepOutcome::Continue);
    assert_eq!(step_outcome(OnFailure::StopQuietly, false), StepOutcome::Exit(0));
}

fn files(systemd: bool, runit: bool, openrc: bool, s6: bool) -> ServiceFiles {
    ServiceFiles { systemd, runit, openrc, s6 }
}

#[test]
fn init_systems() {
    assert_eq!(Init::get_init(&files(true, true, true, true)), Some(Init::SystemD));
    assert_eq!(Init::get_init(&files(false, true, true, false)), Some(Init::Runit));
    assert_eq!(Init::get_init(&files(false, false, true, true)), Some(Init::OpenRC));
    assert_eq!(Init::get_init(&files(false, false, false, true)), Some(Init::S6));
    assert_eq!(Init::get_init(&files(false, false, false, false)), None);
    assert!(NetworkManager::is_installed(&files(false, false, false, true)));
    assert!(!NetworkManager::is_installed(&files(false, false, false, false)));
}

#[test]
fn restart_commands() {
    let c = NetworkManager::restart(&files(false, false, true, false));
    assert_eq!(c.program, "rc-service");
    assert_eq!(c.args, vec!["NetworkManager", "restart"]);
    let c = NetworkManager::restart(&files(false, false, false, false));
    assert_eq!(c.program, "systemctl");
    assert_eq!(c.args, vec!["restart", "NetworkManager"]);
    assert_eq!(networkmanager_runit_restart().program, "sv");
    assert_eq!(networkmanager_s6_restart().args, vec!["-r", "/run/service/NetworkManager-srv"]);
    assert_eq!(networkmanager_openrc_restart().program, "rc-service");
    assert_eq!(networkmanager_systemd_restart().program, "systemctl");
    assert_eq!(networkmanager_restart().program, "systemctl");
    assert!(networkmanager_exists(true));
    assert!(!networkmanager_exists(false));
    assert!(restart_networkmanager(&files(false, false, false, false)).command.is_none());
    assert_eq!(restart_networkmanager(&files(false, true, false, false)).command.unwrap().program, "sv");
}

#[test]
fn restart_reports() {
    let none = restart_networkmanager(&files(false, false, false, false));
    assert_eq!(none.on_success, RestartReport::RestartManually);
    assert_eq!(none.on_failure, RestartReport::RestartManually);
    let systemd = restart_networkmanager(&files(true, false, true, false));
    assert_eq!(systemd.on_success, RestartReport::Done);
    assert_eq!(systemd.on_failure, RestartReport::Failed);
    let openrc = restart_networkmanager(&files(false, false, true, false));
    assert_eq!(openrc.on_success, RestartReport::Done);
    assert_eq!(openrc.on_failure, RestartReport::FailedOrWarning);
}

#[test]
fn data_directory_and_config() {
    assert_eq!(get_data_dir("/root"), "/root/.local/share/adblocker");
    assert_eq!(data_file("/d", "repos"), "/d/repos");
    assert!(already_initialized(true, true, true));
    assert!(!already_initialized(true, false, true));
    assert_eq!(Config::config_path(Some("/xdg"), "/home/u/.config"), "/xdg/blokator/config.toml");
    assert_eq!(Config::config_path(None, "/home/u/.config"), "/home/u/.config/blokator/config.toml");
    let (c, write) = Config::new(None, "/etc/hosts", "/etc/hosts.backup");
    assert!(write);
    assert_eq!(c.repositories, vec![default_repository()]);
    assert_eq!(c.host_file, "/etc/hosts");
    assert_eq!(c.restore_file, "/etc/hosts.backup");
    assert_eq!(c.backup_file, "/etc/hosts.backup");
    let (c2, write) = Config::new(Some(c), "x", "y");
    assert!(!write);
    assert_eq!(c2.host_file, "/etc/hosts");
    assert_eq!(default_repository(), "https://raw.githubusercontent.com/StevenBlack/hosts/master/hosts");
}
