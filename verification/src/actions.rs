//! What the subcommands decide: applying and restoring the hosts file, copying
//! files, editing the repos list, and which action the command line asks for.
use vstd::prelude::*;

use crate::android::{
    apply_android, apply_android_spec, device_entries, device_ready_spec, device_views,
    list_devices, restore_android, restore_android_spec, step_views, AdbStep, AndroidDevice,
    AndroidError, DeviceListError,
};
use crate::arguments::{Args, Commands, RepoArgs};
use crate::colors::Colors;
use crate::logging::{is_log_line, LogLine, LogType, Logger};
use crate::messages::{Messages, MessagesView};
use crate::presets::Presets;
use crate::repos::{add_repo, del_repo, with_repo, without_repo, RepoError};
use crate::table::{lookup, TableView};
use crate::text::lines;

verus! {

/// The file operations whose failures have their own messages.
#[derive(Clone, Copy, Debug, PartialEq, Eq, Structural)]
pub enum Actions {
    Restore,
    Backup,
    Apply,
}

/// Everything the subcommands need: the command line, the logger, the colours
/// and the messages.
#[derive(Debug)]
pub struct AppState {
    pub args: Args,
    pub logger: Logger,
    pub colors: Colors,
    pub messages: Messages,
}

impl Clone for AppState {
    fn clone(&self) -> (r: Self)
        ensures
            r.args == self.args,
            r.logger.messages() == self.logger.messages(),
            r.colors == self.colors,
            r.messages@ == self.messages@,
    {
        AppState {
            args: self.args.clone(),
            logger: self.logger.clone(),
            colors: self.colors.clone(),
            messages: self.messages.clone(),
        }
    }
}

/// Why reading a file failed.
#[derive(Clone, Copy, Debug, PartialEq, Eq, Structural)]
pub enum ReadErrorKind {
    NotFound,
    PermissionDenied,
    Other,
}

/// The message table that holds the texts of a file operation.
pub open spec fn action_table(m: MessagesView, a: Actions) -> TableView {
    match a {
        Actions::Restore => m.2,
        Actions::Backup => m.3,
        Actions::Apply => m.4,
    }
}

/// The name of the message logged when copying failed for `kind`.
pub open spec fn copy_error_key(m: MessagesView, a: Actions, kind: ReadErrorKind) -> Seq<char> {
    match kind {
        ReadErrorKind::NotFound => lookup(action_table(m, a), "not_found"@)->0,
        ReadErrorKind::PermissionDenied => "permission_denied"@,
        ReadErrorKind::Other => "unknown_error"@,
    }
}

/// Copying a file: given what reading the source gave, the text to write to
/// the destination, or the error line to log (after which the program exits
/// with status 1).
pub fn copy(source: Result<String, ReadErrorKind>, action: Actions, logger: &Logger, messages: &Messages) -> (r: Result<String, LogLine>)
    requires
        lookup(action_table(messages@, action), "not_found"@) is Some,
    ensures
        source is Ok <==> r is Ok,
        source is Ok ==> r->Ok_0@ == source->Ok_0@,
        source is Err ==> is_log_line(
            r->Err_0,
            logger.messages(),
            LogType::Error,
            copy_error_key(messages@, action, source->Err_0),
        ),
{
    let not_found_message = match action {
        Actions::Restore => messages.restore_message.get("not_found"),
        Actions::Backup => messages.backup_message.get("not_found"),
        Actions::Apply => messages.apply_message.get("not_found"),
    };
    let not_found_message = match not_found_message {
        Some(m) => m,
        None => String::new(),
    };
    match source {
        Ok(s) => Ok(s),
        Err(ReadErrorKind::NotFound) => Err(logger.log_error(not_found_message.as_str())),
        Err(ReadErrorKind::PermissionDenied) => Err(logger.log_error("permission_denied")),
        Err(ReadErrorKind::Other) => Err(logger.log_error("unknown_error")),
    }
}

/// Why applying was refused.
#[derive(Clone, Copy, Debug, PartialEq, Eq, Structural)]
pub enum ApplyError {
    /// The local hosts file (made by `sync`) does not exist.
    LocalHostsMissing,
    /// The system hosts file does not exist.
    EtcHostsMissing,
    /// The system hosts file already equals the local one.
    AlreadyApplied,
}

/// What applying writes: the backup (only when there was none) and the new
/// system hosts file.
#[derive(Debug)]
pub struct ApplyPlan {
    pub backup: Option<String>,
    pub hosts: String,
}

/// The outcome of applying, over the contents of the local hosts file, of the
/// system hosts file (`None`: missing) and whether a backup exists: the backup
/// to write, if any, and the new system hosts file.
pub open spec fn apply_outcome(
    local_hosts: Option<Seq<char>>,
    etc_hosts: Option<Seq<char>>,
    backup_exists: bool,
) -> Result<(Option<Seq<char>>, Seq<char>), ApplyError> {
    match local_hosts {
        None => Err(ApplyError::LocalHostsMissing),
        Some(local) => match etc_hosts {
            None => Err(ApplyError::EtcHostsMissing),
            Some(etc) => if etc == local {
                Err(ApplyError::AlreadyApplied)
            } else if backup_exists {
                Ok((None, local))
            } else {
                Ok((Some(etc), local))
            },
        },
    }
}

/// The view of an optional owned string.
pub open spec fn opt_string_view(o: Option<String>) -> Option<Seq<char>> {
    match o {
        Some(s) => Some(s@),
        None => None,
    }
}

/// The view of an optional string slice.
pub open spec fn opt_view(o: Option<&str>) -> Option<Seq<char>> {
    match o {
        Some(s) => Some(s@),
        None => None,
    }
}

/// Applying the local hosts file to the system: refuses when a file is missing
/// or the system file already equals the local one; otherwise backs the system
/// file up (when no backup exists) and replaces it by the local one.
pub fn apply_hosts(local_hosts: Option<&str>, etc_hosts: Option<&str>, backup_exists: bool) -> (r: Result<ApplyPlan, ApplyError>)
    ensures
        r is Err ==> apply_outcome(opt_view(local_hosts), opt_view(etc_hosts), backup_exists) == Err::<(Option<Seq<char>>, Seq<char>), ApplyError>(r->Err_0),
        r is Ok ==> apply_outcome(opt_view(local_hosts), opt_view(etc_hosts), backup_exists) == Ok::<(Option<Seq<char>>, Seq<char>), ApplyError>((opt_string_view(r->Ok_0.backup), r->Ok_0.hosts@)),
{
    match local_hosts {
        None => Err(ApplyError::LocalHostsMissing),
        Some(local) => match etc_hosts {
            None => Err(ApplyError::EtcHostsMissing),
            Some(etc) => {
                if crate::text::str_eq(etc, local) {
                    Err(ApplyError::AlreadyApplied)
                } else {
                    let backup = if backup_exists {
                        None
                    } else {
                        Some(String::from_str(etc))
                    };
                    Ok(ApplyPlan { backup, hosts: String::from_str(local) })
                }
            },
        },
    }
}

/// Why restoring was refused.
#[derive(Clone, Copy, Debug, PartialEq, Eq, Structural)]
pub enum RestoreError {
    /// There is no backup.
    NotFound,
    /// The system hosts file already equals the backup.
    AlreadyRestored,
}

/// The outcome of restoring: the new system hosts file.
pub open spec fn restore_outcome(backup: Option<Seq<char>>, hosts: Seq<char>) -> Result<Seq<char>, RestoreError> {
    match backup {
        None => Err(RestoreError::NotFound),
        Some(b) => if b == hosts {
            Err(RestoreError::AlreadyRestored)
        } else {
            Ok(b)
        },
    }
}

/// Restoring the backup (`None`: missing) over the system hosts file: the new
/// system hosts file, or why nothing is done.
pub fn restore_backup(backup: Option<&str>, hosts: &str) -> (r: Result<String, RestoreError>)
    ensures
        r is Err ==> restore_outcome(opt_view(backup), hosts@) == Err::<Seq<char>, RestoreError>(r->Err_0),
        r is Ok ==> restore_outcome(opt_view(backup), hosts@) == Ok::<Seq<char>, RestoreError>(r->Ok_0@),
{
    match backup {
        None => Err(RestoreError::NotFound),
        Some(b) => {
            if crate::text::str_eq(b, hosts) {
                Err(RestoreError::AlreadyRestored)
            } else {
                Ok(String::from_str(b))
            }
        },
    }
}

/// Restoring after applying gives back the system hosts file as it was before
/// applying, and the backup applying made is that file.
pub proof fn lemma_restore_undoes_apply(local: Seq<char>, etc: Seq<char>)
    requires
        local != etc,
    ensures
        apply_outcome(Some(local), Some(etc), false) == Ok::<(Option<Seq<char>>, Seq<char>), ApplyError>((Some(etc), local)),
        restore_outcome(Some(etc), local) == Ok::<Seq<char>, RestoreError>(etc),
{
}

/// Applying twice: the second time is refused as already applied.
pub proof fn lemma_apply_twice(local: Seq<char>, etc: Seq<char>, backup_exists: bool)
    requires
        apply_outcome(Some(local), Some(etc), backup_exists) is Ok,
    ensures
        apply_outcome(Some(local), Some(apply_outcome(Some(local), Some(etc), backup_exists)->Ok_0.1), true)
            == Err::<(Option<Seq<char>>, Seq<char>), ApplyError>(ApplyError::AlreadyApplied),
{
}

/// Restoring twice: the second time is refused as already restored.
pub proof fn lemma_restore_twice(backup: Seq<char>, hosts: Seq<char>)
    requires
        restore_outcome(Some(backup), hosts) is Ok,
    ensures
        restore_outcome(Some(backup), restore_outcome(Some(backup), hosts)->Ok_0)
            == Err::<Seq<char>, RestoreError>(RestoreError::AlreadyRestored),
{
}

/// An existing backup is never overwritten by applying.
pub proof fn lemma_apply_keeps_backup(local: Option<Seq<char>>, etc: Option<Seq<char>>)
    requires
        apply_outcome(local, etc, true) is Ok,
    ensures
        apply_outcome(local, etc, true)->Ok_0.0 is None,
{
}

/// `add-repo`: the repos file once `repo` is added.
pub fn add_repo_action(repo: String, repos: &str) -> (r: Result<String, RepoError>)
    ensures
        lines(repos@).contains(repo@) ==> r == Err::<String, RepoError>(RepoError::AlreadyExists),
        !lines(repos@).contains(repo@) ==> r is Ok && r->Ok_0@ == with_repo(repos@, repo@),
{
    add_repo(repos, repo.as_str())
}

/// `del-repo`: the repos file (`None`: missing) once `repo` is deleted.
pub fn del_repo_action(repo: String, repos_file: Option<&str>) -> (r: Result<String, RepoError>)
    ensures
        repos_file is None ==> r == Err::<String, RepoError>(RepoError::ListMissing),
        repos_file is Some && !lines(repos_file->0@).contains(repo@) ==> r == Err::<
            String,
            RepoError,
        >(RepoError::NotFound),
        repos_file is Some && lines(repos_file->0@).contains(repo@) ==> r is Ok && r->Ok_0@
            == without_repo(repos_file->0@, repo@),
{
    del_repo(repos_file, repo.as_str())
}

/// Why a preset subcommand failed.
#[derive(Debug, PartialEq, Eq, Structural)]
pub enum PresetRepoError {
    /// No preset has the given name.
    PresetNotFound,
    /// The change to the repos list was refused.
    Repo(RepoError),
}

/// `add-repo-preset`: the URL of the preset and the repos file once it is added.
pub fn add_repo_preset_action(repo: String, presets: &Presets, repos: &str) -> (r: Result<(String, String), PresetRepoError>)
    ensures
        lookup(presets.preset@, repo@) is None ==> r == Err::<(String, String), PresetRepoError>(
            PresetRepoError::PresetNotFound,
        ),
        lookup(presets.preset@, repo@) is Some && lines(repos@).contains(
            lookup(presets.preset@, repo@)->0,
        ) ==> r == Err::<(String, String), PresetRepoError>(
            PresetRepoError::Repo(RepoError::AlreadyExists),
        ),
        lookup(presets.preset@, repo@) is Some && !lines(repos@).contains(
            lookup(presets.preset@, repo@)->0,
        ) ==> r is Ok && r->Ok_0.0@ == lookup(presets.preset@, repo@)->0 && r->Ok_0.1@
            == with_repo(repos@, r->Ok_0.0@),
{
    match presets.get(repo) {
        None => Err(PresetRepoError::PresetNotFound),
        Some(url) => match add_repo(repos, url.as_str()) {
            Ok(c) => Ok((url, c)),
            Err(e) => Err(PresetRepoError::Repo(e)),
        },
    }
}

/// `del-repo-preset`: the URL of the preset and the repos file (`None`:
/// missing) once it is deleted.
pub fn del_repo_preset_action(repo: String, presets: &Presets, repos_file: Option<&str>) -> (r: Result<(String, String), PresetRepoError>)
    ensures
        lookup(presets.preset@, repo@) is None ==> r == Err::<(String, String), PresetRepoError>(
            PresetRepoError::PresetNotFound,
        ),
        lookup(presets.preset@, repo@) is Some && repos_file is None ==> r == Err::<
            (String, String),
            PresetRepoError,
        >(PresetRepoError::Repo(RepoError::ListMissing)),
        lookup(presets.preset@, repo@) is Some && repos_file is Some && !lines(
            repos_file->0@,
        ).contains(lookup(presets.preset@, repo@)->0) ==> r == Err::<
            (String, String),
            PresetRepoError,
        >(PresetRepoError::Repo(RepoError::NotFound)),
        lookup(presets.preset@, repo@) is Some && repos_file is Some && lines(
            repos_file->0@,
        ).contains(lookup(presets.preset@, repo@)->0) ==> r is Ok && r->Ok_0.0@ == lookup(
            presets.preset@,
            repo@,
        )->0 && r->Ok_0.1@ == without_repo(repos_file->0@, r->Ok_0.0@),
{
    match presets.get(repo) {
        None => Err(PresetRepoError::PresetNotFound),
        Some(url) => match del_repo(repos_file, url.as_str()) {
            Ok(c) => Ok((url, c)),
            Err(e) => Err(PresetRepoError::Repo(e)),
        },
    }
}

/// `--list-devices`: the devices in the output of `adb devices`.
pub fn list_devices_action(devices_output: &str) -> (r: Result<Vec<AndroidDevice>, DeviceListError>)
    ensures
        lines(devices_output@).len() == 2 <==> r is Err,
        r is Ok ==> device_views(r->Ok_0@) == device_entries(lines(devices_output@)),
{
    list_devices(devices_output)
}

/// `--restore-android`: the ADB steps that restore the backup on the device,
/// refused when `adb devices` does not show it as ready.
pub fn restore_android_action(android_device: String, devices_output: &str) -> (r: Result<Vec<AdbStep>, AndroidError>)
    ensures
        !device_ready_spec(devices_output@, android_device@) ==> r == Err::<Vec<AdbStep>, AndroidError>(
            AndroidError::DeviceNotReady,
        ),
        device_ready_spec(devices_output@, android_device@) ==> r is Ok && step_views(r->Ok_0@)
            == restore_android_spec(android_device@),
{
    restore_android(android_device.as_str(), devices_output)
}

/// `apply-android`: the ADB steps that apply the local hosts file (in
/// `data_dir`) on the device, refused when `adb devices` does not show it as ready.
pub fn apply_android_action(android_device: String, data_dir: &str, devices_output: &str) -> (r: Result<Vec<AdbStep>, AndroidError>)
    ensures
        !device_ready_spec(devices_output@, android_device@) ==> r == Err::<Vec<AdbStep>, AndroidError>(
            AndroidError::DeviceNotReady,
        ),
        device_ready_spec(devices_output@, android_device@) ==> r is Ok && step_views(r->Ok_0@)
            == apply_android_spec(android_device@, data_dir@),
{
    apply_android(android_device.as_str(), data_dir, devices_output)
}

/// The action the command line asks for.
#[derive(Debug)]
pub enum CommandAction {
    Sync,
    Apply,
    ApplyAndroid(Option<String>),
    Backup,
    Restore,
    RestoreAndroid(Option<String>),
    AddRepo(String),
    AddRepoPreset(String),
    DelRepo(String),
    DelRepoPreset(String),
    ListRepos,
    ListDevices,
}

/// The action for a command line: `--list-devices` and `--restore-android`,
/// which have no subcommand of their own, come first; otherwise the subcommand
/// decides, the Android ones acting on the device given by `--android-device`.
pub open spec fn command_action(args: Args) -> CommandAction {
    if args.list_devices {
        CommandAction::ListDevices
    } else if args.restore_android {
        CommandAction::RestoreAndroid(args.android_device)
    } else {
        match args.command {
            Commands::Sync(_) => CommandAction::Sync,
            Commands::Apply => CommandAction::Apply,
            Commands::ApplyAndroid => CommandAction::ApplyAndroid(args.android_device),
            Commands::Backup => CommandAction::Backup,
            Commands::Restore => CommandAction::Restore,
            Commands::AddRepo(a) => CommandAction::AddRepo(a.repo),
            Commands::AddRepoPreset(a) => CommandAction::AddRepoPreset(a.repo),
            Commands::DelRepo(a) => CommandAction::DelRepo(a.repo),
            Commands::DelRepoPreset(a) => CommandAction::DelRepoPreset(a.repo),
            Commands::ListRepos => CommandAction::ListRepos,
        }
    }
}

/// Chooses the action to run for the command line.
pub fn exec_command(args: &Args) -> (r: CommandAction)
    ensures
        r == command_action(*args),
{
    let args = args.clone();
    if args.list_devices {
        return CommandAction::ListDevices;
    }
    if args.restore_android {
        return CommandAction::RestoreAndroid(args.android_device);
    }
    match args.command {
        Commands::Sync(_) => CommandAction::Sync,
        Commands::Apply => CommandAction::Apply,
        Commands::ApplyAndroid => CommandAction::ApplyAndroid(args.android_device),
        Commands::Backup => CommandAction::Backup,
        Commands::Restore => CommandAction::Restore,
        Commands::AddRepo(a) => CommandAction::AddRepo(a.repo),
        Commands::AddRepoPreset(a) => CommandAction::AddRepoPreset(a.repo),
        Commands::DelRepo(a) => CommandAction::DelRepo(a.repo),
        Commands::DelRepoPreset(a) => CommandAction::DelRepoPreset(a.repo),
        Commands::ListRepos => CommandAction::ListRepos,
    }
}

/// After the action ran without ending the program: a `sync` request ends it
/// with status 1 (`true`).
pub fn check_allowed_function(args: &Args) -> (r: bool)
    ensures
        r == (args.command is Sync),
{
    match args.command {
        Commands::Sync(_) => true,
        _ => false,
    }
}


/// Without `--list-devices` and `--restore-android`, each subcommand gives the
/// action of the same name, carrying the repo or preset name it was given (the
/// Android one, the device given by `--android-device`).
pub proof fn lemma_subcommand_actions(args: Args)
    requires
        !args.list_devices,
        !args.restore_android,
    ensures
        args.command is Sync ==> command_action(args) is Sync,
        args.command is Apply ==> command_action(args) is Apply,
        args.command is ApplyAndroid ==> command_action(args) == CommandAction::ApplyAndroid(
            args.android_device,
        ),
        args.command is Backup ==> command_action(args) is Backup,
        args.command is Restore ==> command_action(args) is Restore,
        args.command is ListRepos ==> command_action(args) is ListRepos,
        forall|a: RepoArgs|
            args.command == Commands::AddRepo(a) ==> command_action(args) == CommandAction::AddRepo(
                a.repo,
            ),
        forall|a: RepoArgs|
            args.command == Commands::AddRepoPreset(a) ==> command_action(args)
                == CommandAction::AddRepoPreset(a.repo),
        forall|a: RepoArgs|
            args.command == Commands::DelRepo(a) ==> command_action(args) == CommandAction::DelRepo(
                a.repo,
            ),
        forall|a: RepoArgs|
            args.command == Commands::DelRepoPreset(a) ==> command_action(args)
                == CommandAction::DelRepoPreset(a.repo),
{
}

/// Without `--list-devices` and `--restore-android`, two command lines that
/// act on the same device and ask for the same action name the same
/// subcommand with the same argument: no subcommand is taken for another.
pub proof fn lemma_subcommand_actions_distinct(a1: Args, a2: Args)
    requires
        !a1.list_devices,
        !a1.restore_android,
        !a2.list_devices,
        !a2.restore_android,
        a1.android_device == a2.android_device,
        command_action(a1) == command_action(a2),
    ensures
        a1.command == a2.command,
{
    match (a1.command, a2.command) {
        (Commands::Sync(x), Commands::Sync(y)) => {
            assert(x == y);
        },
        _ => {},
    }
}

} // verus!
