//! Finding the init system that runs NetworkManager and the command that
//! restarts it.
use vstd::prelude::*;

use crate::text::views;

verus! {

/// The init systems whose NetworkManager service is recognised.
#[derive(Clone, Copy, Debug, PartialEq, Eq, Structural)]
pub enum Init {
    SystemD,
    Runit,
    OpenRC,
    S6,
}

/// NetworkManager, restarted through whichever init system runs it.
pub struct NetworkManager;

/// Which NetworkManager service files exist, one per init system.
#[derive(Clone, Copy, Debug)]
pub struct ServiceFiles {
    pub systemd: bool,
    pub runit: bool,
    pub openrc: bool,
    pub s6: bool,
}

/// A command to run: a program and its arguments.
#[derive(Debug)]
pub struct RestartCommand {
    pub program: String,
    pub args: Vec<String>,
}

/// The init system running NetworkManager: the first whose service file
/// exists, in the order systemd, runit, OpenRC, s6.
pub open spec fn init_of(files: ServiceFiles) -> Option<Init> {
    if files.systemd {
        Some(Init::SystemD)
    } else if files.runit {
        Some(Init::Runit)
    } else if files.openrc {
        Some(Init::OpenRC)
    } else if files.s6 {
        Some(Init::S6)
    } else {
        None
    }
}

/// The restart command of each init system (systemd's when none is known).
pub open spec fn restart_spec(init: Option<Init>) -> (Seq<char>, Seq<Seq<char>>) {
    match init {
        Some(Init::Runit) => ("sv"@, seq!["restart"@, "NetworkManager"@]),
        Some(Init::OpenRC) => ("rc-service"@, seq!["NetworkManager"@, "restart"@]),
        Some(Init::S6) => ("s6-svc"@, seq!["-r"@, "/run/service/NetworkManager-srv"@]),
        _ => ("systemctl"@, seq!["restart"@, "NetworkManager"@]),
    }
}

/// `c` is the command described by `spec`.
pub open spec fn is_command(c: RestartCommand, spec: (Seq<char>, Seq<Seq<char>>)) -> bool {
    c.program@ == spec.0 && views(c.args@) == spec.1
}

fn command2(program: &str, a: &str, b: &str) -> (c: RestartCommand)
    ensures
        c.program@ == program@,
        views(c.args@) == seq![a@, b@],
{
    let mut args: Vec<String> = Vec::new();
    args.push(String::from_str(a));
    args.push(String::from_str(b));
    assert(views(args@) =~= seq![a@, b@]);
    RestartCommand { program: String::from_str(program), args }
}

impl Init {
    /// The init system running NetworkManager, if any.
    pub fn get_init(files: &ServiceFiles) -> (r: Option<Init>)
        ensures
            r == init_of(*files),
    {
        if files.systemd {
            Some(Init::SystemD)
        } else if files.runit {
            Some(Init::Runit)
        } else if files.openrc {
            Some(Init::OpenRC)
        } else if files.s6 {
            Some(Init::S6)
        } else {
            None
        }
    }

    pub fn systemd_restart() -> (c: RestartCommand)
        ensures
            is_command(c, restart_spec(Some(Init::SystemD))),
    {
        command2("systemctl", "restart", "NetworkManager")
    }

    pub fn runit_restart() -> (c: RestartCommand)
        ensures
            is_command(c, restart_spec(Some(Init::Runit))),
    {
        command2("sv", "restart", "NetworkManager")
    }

    pub fn openrc_restart() -> (c: RestartCommand)
        ensures
            is_command(c, restart_spec(Some(Init::OpenRC))),
    {
        command2("rc-service", "NetworkManager", "restart")
    }

    pub fn s6_restart() -> (c: RestartCommand)
        ensures
            is_command(c, restart_spec(Some(Init::S6))),
    {
        command2("s6-svc", "-r", "/run/service/NetworkManager-srv")
    }
}

impl NetworkManager {
    /// Whether NetworkManager runs under a recognised init system.
    pub fn is_installed(files: &ServiceFiles) -> (r: bool)
        ensures
            r == (init_of(*files) is Some),
    {
        Init::get_init(files).is_some()
    }

    /// The command that restarts NetworkManager.
    pub fn restart(files: &ServiceFiles) -> (c: RestartCommand)
        ensures
            is_command(c, restart_spec(init_of(*files))),
    {
        match Init::get_init(files) {
            Some(Init::SystemD) => Init::systemd_restart(),
            Some(Init::Runit) => Init::runit_restart(),
            Some(Init::OpenRC) => Init::openrc_restart(),
            Some(Init::S6) => Init::s6_restart(),
            None => Init::systemd_restart(),
        }
    }
}

/// How restarting NetworkManager went.
#[derive(Clone, Copy, Debug, PartialEq, Eq, Structural)]
pub enum RestartReport {
    /// The restart command succeeded.
    Done,
    /// The restart command failed.
    Failed,
    /// The restart command failed under OpenRC, which also fails on mere warnings.
    FailedOrWarning,
    /// No init system is known to run NetworkManager: the user must restart it.
    RestartManually,
}

/// The report for a restart whose command, when one was run, succeeded or not.
pub open spec fn restart_report_spec(files: ServiceFiles, succeeded: bool) -> RestartReport {
    if init_of(files) is None {
        RestartReport::RestartManually
    } else if succeeded {
        RestartReport::Done
    } else if init_of(files) == Some(Init::OpenRC) {
        RestartReport::FailedOrWarning
    } else {
        RestartReport::Failed
    }
}

/// How to restart NetworkManager: the command to run (`None`: it has to be
/// restarted by hand), and what to report when that command succeeds or fails.
#[derive(Debug)]
pub struct RestartPlan {
    pub command: Option<RestartCommand>,
    pub on_success: RestartReport,
    pub on_failure: RestartReport,
}

/// Restarting NetworkManager: the restart command of the init system running
/// it, reported as done when it succeeds and as failed (or, under OpenRC, which
/// also fails on mere warnings, as failed or warning) when it fails; without a
/// known init system, no command and a request to restart it by hand.
pub fn restart_networkmanager(files: &ServiceFiles) -> (r: RestartPlan)
    ensures
        r.command is None <==> init_of(*files) is None,
        r.command is Some ==> is_command(r.command->0, restart_spec(init_of(*files))),
        r.on_success == restart_report_spec(*files, true),
        r.on_failure == restart_report_spec(*files, false),
{
    if NetworkManager::is_installed(files) {
        let on_failure = if Init::get_init(files) == Some(Init::OpenRC) {
            RestartReport::FailedOrWarning
        } else {
            RestartReport::Failed
        };
        RestartPlan {
            command: Some(NetworkManager::restart(files)),
            on_success: RestartReport::Done,
            on_failure,
        }
    } else {
        RestartPlan {
            command: None,
            on_success: RestartReport::RestartManually,
            on_failure: RestartReport::RestartManually,
        }
    }
}

/// Restarting NetworkManager under OpenRC.
pub fn networkmanager_openrc_restart() -> (c: RestartCommand)
    ensures
        is_command(c, restart_spec(Some(Init::OpenRC))),
{
    Init::openrc_restart()
}

/// Restarting NetworkManager under runit.
pub fn networkmanager_runit_restart() -> (c: RestartCommand)
    ensures
        is_command(c, restart_spec(Some(Init::Runit))),
{
    Init::runit_restart()
}

/// Restarting NetworkManager under s6.
pub fn networkmanager_s6_restart() -> (c: RestartCommand)
    ensures
        is_command(c, restart_spec(Some(Init::S6))),
{
    Init::s6_restart()
}

/// Restarting NetworkManager under systemd.
pub fn networkmanager_systemd_restart() -> (c: RestartCommand)
    ensures
        is_command(c, restart_spec(Some(Init::SystemD))),
{
    Init::systemd_restart()
}

/// Whether NetworkManager is a systemd service: its unit file exists.
pub fn networkmanager_exists(service_file_exists: bool) -> (r: bool)
    ensures
        r == service_file_exists,
{
    service_file_exists
}

/// Restarting NetworkManager as a systemd service.
pub fn networkmanager_restart() -> (c: RestartCommand)
    ensures
        is_command(c, restart_spec(Some(Init::SystemD))),
{
    Init::systemd_restart()
}


/// The restart command tells the init system that runs NetworkManager to
/// restart it, in that system's own form: `systemctl restart NetworkManager`
/// under systemd (and when no init system is known), `sv restart
/// NetworkManager` under runit, `rc-service NetworkManager restart` under
/// OpenRC and `s6-svc -r /run/service/NetworkManager-srv` under s6, the init
/// system being the first whose service file exists, in the order systemd,
/// runit, OpenRC, s6.
pub proof fn lemma_restart_commands(files: ServiceFiles)
    ensures
        files.systemd ==> restart_spec(init_of(files)) == ("systemctl"@, seq!["restart"@, "NetworkManager"@]),
        !files.systemd && files.runit ==> restart_spec(init_of(files)) == ("sv"@, seq![
            "restart"@,
            "NetworkManager"@,
        ]),
        !files.systemd && !files.runit && files.openrc ==> restart_spec(init_of(files)) == (
            "rc-service"@,
            seq!["NetworkManager"@, "restart"@],
        ),
        !files.systemd && !files.runit && !files.openrc && files.s6 ==> restart_spec(init_of(files))
            == ("s6-svc"@, seq!["-r"@, "/run/service/NetworkManager-srv"@]),
        !files.systemd && !files.runit && !files.openrc && !files.s6 ==> restart_spec(
            init_of(files),
        ) == ("systemctl"@, seq!["restart"@, "NetworkManager"@]),
{
}

} // verus!
