//! The command line, as plain values.
use vstd::prelude::*;

verus! {

/// The options and the subcommand given on the command line.
#[derive(Debug)]
pub struct Args {
    pub command: Commands,
    /// Start the adblocker on an Android phone with ADB.
    pub apply_android: bool,
    /// The Android device to act on (its ADB device ID).
    pub android_device: Option<String>,
    /// List the Android devices.
    pub list_devices: bool,
    /// Restore the Android backup of the hosts file with ADB.
    pub restore_android: bool,
    /// List the repos.
    pub list_repos: bool,
    /// Add a repo from a preset.
    pub add_repo_preset: Option<String>,
    /// Delete a repo from a preset.
    pub del_repo_preset: Option<String>,
    /// Send all traffic through the TOR proxy.
    pub tor: bool,
    /// Bind address of the TOR proxy.
    pub tor_bind_address: String,
    /// Port of the TOR proxy.
    pub tor_port: i32,
}

/// The subcommands.
#[derive(Debug)]
pub enum Commands {
    Sync(SyncArgs),
    Apply,
    ApplyAndroid,
    Backup,
    Restore,
    AddRepo(RepoArgs),
    AddRepoPreset(RepoArgs),
    DelRepo(RepoArgs),
    DelRepoPreset(RepoArgs),
    ListRepos,
}

/// Options of `sync` (none).
#[derive(Debug)]
pub struct SyncArgs {}

/// The repo a repo subcommand acts on.
#[derive(Debug)]
pub struct RepoArgs {
    pub repo: String,
}

impl Clone for SyncArgs {
    fn clone(&self) -> (r: Self)
        ensures
            r == *self,
    {
        SyncArgs {  }
    }
}

impl Clone for RepoArgs {
    fn clone(&self) -> (r: Self)
        ensures
            r == *self,
    {
        RepoArgs { repo: self.repo.clone() }
    }
}

impl Clone for Commands {
    fn clone(&self) -> (r: Self)
        ensures
            r == *self,
    {
        match self {
            Commands::Sync(a) => Commands::Sync(a.clone()),
            Commands::Apply => Commands::Apply,
            Commands::ApplyAndroid => Commands::ApplyAndroid,
            Commands::Backup => Commands::Backup,
            Commands::Restore => Commands::Restore,
            Commands::AddRepo(a) => Commands::AddRepo(a.clone()),
            Commands::AddRepoPreset(a) => Commands::AddRepoPreset(a.clone()),
            Commands::DelRepo(a) => Commands::DelRepo(a.clone()),
            Commands::DelRepoPreset(a) => Commands::DelRepoPreset(a.clone()),
            Commands::ListRepos => Commands::ListRepos,
        }
    }
}

fn clone_opt(o: &Option<String>) -> (r: Option<String>)
    ensures
        r == *o,
{
    match o {
        Some(s) => Some(s.clone()),
        None => None,
    }
}

impl Clone for Args {
    fn clone(&self) -> (r: Self)
        ensures
            r == *self,
    {
        Args {
            command: self.command.clone(),
            apply_android: self.apply_android,
            android_device: clone_opt(&self.android_device),
            list_devices: self.list_devices,
            restore_android: self.restore_android,
            list_repos: self.list_repos,
            add_repo_preset: clone_opt(&self.add_repo_preset),
            del_repo_preset: clone_opt(&self.del_repo_preset),
            tor: self.tor,
            tor_bind_address: self.tor_bind_address.clone(),
            tor_port: self.tor_port,
        }
    }
}

} // verus!
