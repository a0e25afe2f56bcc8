//! Where the program keeps its files, and its configuration.
use vstd::prelude::*;

use crate::text::views;

verus! {

/// The configuration: the repos to sync and the paths of the hosts files.
#[derive(Debug)]
pub struct Config {
    pub repositories: Vec<String>,
    pub host_file: String,
    pub restore_file: String,
    pub backup_file: String,
}

/// The repo every fresh installation starts with.
pub open spec fn default_repository_spec() -> Seq<char> {
    "https://raw.githubusercontent.com/StevenBlack/hosts/master/hosts"@
}

/// The repo every fresh installation starts with.
pub fn default_repository() -> (r: String)
    ensures
        r@ == default_repository_spec(),
{
    String::from_str("https://raw.githubusercontent.com/StevenBlack/hosts/master/hosts")
}

impl Config {
    /// The configuration to use: the one read from the configuration file when
    /// there is one; otherwise the default one (the default repo, and the system
    /// hosts file with its backup path as restore and backup file), which is then
    /// to be written (`true`).
    pub fn new(existing: Option<Config>, host_file: &str, backup_file: &str) -> (r: (Config, bool))
        ensures
            existing is Some ==> r.0 == existing->0 && !r.1,
            existing is None ==> r.1 && views(r.0.repositories@) == seq![default_repository_spec()]
                && r.0.host_file@ == host_file@ && r.0.restore_file@ == backup_file@
                && r.0.backup_file@ == backup_file@,
    {
        match existing {
            Some(c) => (c, false),
            None => {
                let mut repositories: Vec<String> = Vec::new();
                repositories.push(default_repository());
                assert(views(repositories@) =~= seq![default_repository_spec()]);
                (
                    Config {
                        repositories,
                        host_file: String::from_str(host_file),
                        restore_file: String::from_str(backup_file),
                        backup_file: String::from_str(backup_file),
                    },
                    true,
                )
            },
        }
    }

    /// The path of the configuration file under `XDG_CONFIG_HOME` when that is
    /// set, else under the user's configuration directory.
    pub fn config_path(xdg_config_home: Option<&str>, config_dir: &str) -> (r: String)
        ensures
            r@ == (match xdg_config_home {
                Some(x) => x@,
                None => config_dir@,
            }) + "/blokator/config.toml"@,
    {
        let base = match xdg_config_home {
            Some(x) => String::from_str(x),
            None => String::from_str(config_dir),
        };
        base.concat("/blokator/config.toml")
    }
}

/// The data directory below the home directory `home`.
pub fn get_data_dir(home: &str) -> (r: String)
    ensures
        r@ == home@ + "/.local/share/adblocker"@,
{
    String::from_str(home).concat("/.local/share/adblocker")
}

/// The path of the file `name` in the data directory.
pub fn data_file(data_dir: &str, name: &str) -> (r: String)
    ensures
        r@ == data_dir@ + "/"@ + name@,
{
    String::from_str(data_dir).concat("/").concat(name)
}

/// The data directory is set up when it exists with its `hosts` and `repos` files.
pub fn already_initialized(hosts_exists: bool, repos_exists: bool, dir_exists: bool) -> (r: bool)
    ensures
        r == (hosts_exists && repos_exists && dir_exists),
{
    let mut status: bool = true;
    if !hosts_exists {
        status = false;
    }
    if !repos_exists {
        status = false;
    }
    if !dir_exists {
        status = false;
    }
    status
}

} // verus!
