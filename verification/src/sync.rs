//! Syncing: collecting the hosts lists of all repos into the local hosts file.
use vstd::prelude::*;

use crate::error::{check_http_error, not_found_marker};
use crate::arguments::Args;
use crate::text::{contains, nonempty_lines, nonempty_lines_of, trim, trim_string, views};
use crate::tor::{proxy_for, tor_proxy_spec, uses_tor};

verus! {

/// Why a sync did not start.
#[derive(Debug, PartialEq, Eq, Structural)]
pub enum SyncError {
    /// The repos file holds nothing but whitespace.
    NoReposToSync,
}

/// The local hosts file after one repo was fetched, and whether the fetched
/// text was a "404 Not Found" page.
#[derive(Debug)]
pub struct SyncResult {
    pub hosts: String,
    pub error: bool,
}

/// The local hosts file after adding the text fetched from one repo: appended
/// with a blank line after it when the file exists, the text alone otherwise.
pub open spec fn synced_once(existing: Option<Seq<char>>, response: Seq<char>) -> Seq<char> {
    match existing {
        Some(old) => old + response + "\n\n"@,
        None => response,
    }
}

/// The local hosts file after syncing, in order, repos that answered
/// `responses`, starting from the emptied file.
pub open spec fn synced_hosts(responses: Seq<Seq<char>>) -> Seq<char>
    decreases responses.len(),
{
    if responses.len() == 0 {
        seq![]
    } else {
        synced_once(Some(synced_hosts(responses.drop_last())), responses.last())
    }
}

/// The view of an optional string slice.
pub open spec fn opt_view(o: Option<&str>) -> Option<Seq<char>> {
    match o {
        Some(s) => Some(s@),
        None => None,
    }
}

/// Adds the text fetched from one repo to the local hosts file (`None`: the
/// file does not exist) and reports whether that text was a 404 page.
pub fn sync(existing_hosts: Option<&str>, response: &str) -> (r: SyncResult)
    ensures
        r.hosts@ == synced_once(opt_view(existing_hosts), response@),
        r.error == contains(response@, not_found_marker()),
{
    let error = check_http_error(response);
    let hosts = match existing_hosts {
        Some(old) => {
            let h = String::from_str(old);
            let h = h.concat(response);
            h.concat("\n\n")
        },
        None => String::from_str(response),
    };
    SyncResult { hosts, error }
}

/// The repos to fetch in a sync: the non-empty lines of a repos file that is
/// not blank, in order, each once.
#[derive(Debug)]
pub struct SyncPlan {
    source: String,
    repos: Vec<String>,
}

/// One request of a sync: the repo URL and the proxy to send it through.
#[derive(Debug)]
pub struct FetchRequest {
    pub url: String,
    pub proxy: Option<String>,
}

impl SyncPlan {
    #[verifier::type_invariant]
    spec fn inv(self) -> bool {
        &&& views(self.repos@) == nonempty_lines(self.source@)
        &&& trim(self.source@).len() > 0
    }

    /// The repos file the plan was made from.
    pub closed spec fn source(&self) -> Seq<char> {
        self.source@
    }

    /// The repos to fetch.
    pub closed spec fn repo_views(&self) -> Seq<Seq<char>> {
        views(self.repos@)
    }

    /// The repos to fetch, in order.
    pub fn repos(&self) -> (r: &Vec<String>)
        ensures
            views(r@) == self.repo_views(),
            self.repo_views() == nonempty_lines(self.source()),
            trim(self.source()).len() > 0,
    {
        proof {
            use_type_invariant(self);
        }
        &self.repos
    }

    /// The requests of the sync: one per repo of the plan, in order, each sent
    /// through the TOR proxy exactly when TOR was asked for or the repo is an
    /// onion address.
    pub fn requests(&self, args: &Args) -> (r: Vec<FetchRequest>)
        ensures
            r@.len() == nonempty_lines(self.source()).len(),
            forall|i: int|
                0 <= i < r@.len() ==> {
                    &&& (#[trigger] r@[i]).url@ == nonempty_lines(self.source())[i]
                    &&& uses_tor(r@[i].url@, args.tor) ==> r@[i].proxy is Some
                        && r@[i].proxy->0@ == tor_proxy_spec(args.tor_bind_address@, args.tor_port)
                    &&& !uses_tor(r@[i].url@, args.tor) ==> r@[i].proxy is None
                },
    {
        proof {
            use_type_invariant(self);
        }
        let mut r: Vec<FetchRequest> = Vec::new();
        let mut i: usize = 0;
        while i < self.repos.len()
            invariant
                i <= self.repos.len(),
                views(self.repos@) == nonempty_lines(self.source@),
                r@.len() == i,
                forall|j: int|
                    0 <= j < i ==> {
                        &&& (#[trigger] r@[j]).url@ == nonempty_lines(self.source@)[j]
                        &&& uses_tor(r@[j].url@, args.tor) ==> r@[j].proxy is Some
                            && r@[j].proxy->0@ == tor_proxy_spec(
                            args.tor_bind_address@,
                            args.tor_port,
                        )
                        &&& !uses_tor(r@[j].url@, args.tor) ==> r@[j].proxy is None
                    },
            decreases self.repos.len() - i,
        {
            let url = self.repos[i].clone();
            assert(views(self.repos@)[i as int] == self.repos@[i as int]@);
            let proxy = proxy_for(url.as_str(), args);
            r.push(FetchRequest { url, proxy });
            i = i + 1;
        }
        r
    }
}

/// The plan of a sync, or `NoReposToSync` when the repos file holds only
/// whitespace (then nothing is fetched).
pub fn sync_plan(repos_file: &str) -> (r: Result<SyncPlan, SyncError>)
    ensures
        trim(repos_file@).len() == 0 <==> r is Err,
        r is Ok ==> r->Ok_0.source() == repos_file@ && r->Ok_0.repo_views() == nonempty_lines(
            repos_file@,
        ),
{
    let t = trim_string(repos_file);
    if t.as_str().is_empty() {
        return Err(SyncError::NoReposToSync);
    }
    Ok(SyncPlan { source: String::from_str(repos_file), repos: nonempty_lines_of(repos_file) })
}

/// The outcome of a sync of all repos.
#[derive(Debug)]
pub struct SyncReport {
    /// The new local hosts file.
    pub hosts: String,
    /// For each repo, in order: its text was a 404 page.
    pub errors: Vec<bool>,
    /// The local hosts file differs from what it was before the sync.
    pub changed: bool,
}

/// Syncs the repos of `plan`, whose answers are `responses` (one per repo of
/// the plan, in order), into the local hosts file, which held `old_hosts`
/// before it was emptied. The plan's repos file was not blank, and its repos
/// are exactly the non-empty lines of that file.
pub fn sync_repositories(plan: &SyncPlan, old_hosts: &str, responses: &Vec<String>) -> (r: SyncReport)
    requires
        responses@.len() == plan.repo_views().len(),
    ensures
        trim(plan.source()).len() > 0,
        plan.repo_views() == nonempty_lines(plan.source()),
        responses@.len() == nonempty_lines(plan.source()).len(),
        r.hosts@ == synced_hosts(views(responses@)),
        r.errors@.len() == responses@.len(),
        forall|i: int|
            0 <= i < responses@.len() ==> r.errors@[i] == contains(
                #[trigger] responses@[i]@,
                not_found_marker(),
            ),
        r.changed == (old_hosts@ != synced_hosts(views(responses@))),
{
    proof {
        use_type_invariant(plan);
    }
    let mut hosts = String::new();
    let mut errors: Vec<bool> = Vec::new();
    let mut i: usize = 0;
    while i < responses.len()
        invariant
            i <= responses.len(),
            hosts@ == synced_hosts(views(responses@).take(i as int)),
            errors@.len() == i,
            forall|j: int|
                0 <= j < i ==> errors@[j] == contains(#[trigger] responses@[j]@, not_found_marker()),
        decreases responses.len() - i,
    {
        let step = sync(Some(hosts.as_str()), responses[i].as_str());
        proof {
            let rs = views(responses@).take(i + 1);
            assert(rs.drop_last() =~= views(responses@).take(i as int));
            assert(rs.last() == responses@[i as int]@);
        }
        hosts = step.hosts;
        errors.push(step.error);
        i = i + 1;
    }
    assert(views(responses@).take(i as int) =~= views(responses@));
    let old = String::from_str(old_hosts);
    let changed = !(old == hosts);
    SyncReport { hosts, errors, changed }
}

/// Each repo's text is followed by a blank line in the local hosts file: the
/// file after syncing `responses` and then one more repo is the earlier file,
/// that repo's text and a blank line.
pub proof fn lemma_sync_appends(responses: Seq<Seq<char>>, response: Seq<char>)
    ensures
        synced_hosts(responses.push(response)) == synced_hosts(responses) + response + "\n\n"@,
{
    assert(responses.push(response).drop_last() =~= responses);
}

} // verus!
