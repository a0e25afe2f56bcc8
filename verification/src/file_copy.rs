//! Copying the hosts file to the backup, the backup back, and the local hosts
//! over the system ones: what to write, or what to report when the source
//! could not be read.
use vstd::prelude::*;

use crate::actions::ReadErrorKind;

verus! {

/// What is printed when the source of a copy could not be read: `lead`, the
/// read error, `separator`, the kind of the error in brackets, and then, on a
/// line of its own, `help` where there is one. The program then exits with
/// status 1.
pub struct ReadFailureReport {
    pub lead: String,
    pub separator: String,
    pub help: Option<String>,
}

/// The report as plain text: lead, separator and help line.
pub open spec fn report_view(r: ReadFailureReport) -> (Seq<char>, Seq<char>, Option<Seq<char>>) {
    (
        r.lead@,
        r.separator@,
        match r.help {
            Some(h) => Some(h@),
            None => None,
        },
    )
}

/// Reading failed for a cause other than a missing file or a refused access.
pub open spec fn other_failure() -> (Seq<char>, Seq<char>, Option<Seq<char>>) {
    ("==> Error occurred: "@, " "@, None)
}

/// Access to the source was refused.
pub open spec fn denied_failure() -> (Seq<char>, Seq<char>, Option<Seq<char>>) {
    ("==> Permission denied: "@, " "@, None)
}

/// The report of a failed read of the hosts file for a backup.
pub open spec fn backup_failure(kind: ReadErrorKind) -> (Seq<char>, Seq<char>, Option<Seq<char>>) {
    match kind {
        ReadErrorKind::NotFound => (
            "==> Tried to backup the /etc/hosts file, but it doesn't even exist: "@,
            ", "@,
            None,
        ),
        ReadErrorKind::PermissionDenied => denied_failure(),
        ReadErrorKind::Other => other_failure(),
    }
}

/// The report of a failed read of the backup for a restore.
pub open spec fn restore_failure(kind: ReadErrorKind) -> (Seq<char>, Seq<char>, Option<Seq<char>>) {
    match kind {
        ReadErrorKind::NotFound => (
            "==> Tried to restore the backup, but it doesn't even exist: "@,
            " "@,
            None,
        ),
        ReadErrorKind::PermissionDenied => denied_failure(),
        ReadErrorKind::Other => other_failure(),
    }
}

/// The report of a failed read of the local hosts file for an apply; a refused
/// access is reported like any other failure.
pub open spec fn apply_failure(kind: ReadErrorKind) -> (Seq<char>, Seq<char>, Option<Seq<char>>) {
    match kind {
        ReadErrorKind::NotFound => (
            "==> Local hosts don't exist: "@,
            " "@,
            Some("Help: try to run the adblocker with `--sync` argument"@),
        ),
        _ => other_failure(),
    }
}

fn other_report() -> (r: ReadFailureReport)
    ensures
        report_view(r) == other_failure(),
{
    ReadFailureReport {
        lead: String::from_str("==> Error occurred: "),
        separator: String::from_str(" "),
        help: None,
    }
}

fn denied_report() -> (r: ReadFailureReport)
    ensures
        report_view(r) == denied_failure(),
{
    ReadFailureReport {
        lead: String::from_str("==> Permission denied: "),
        separator: String::from_str(" "),
        help: None,
    }
}

/// Backing up: given what reading the hosts file gave, the text to write to
/// the backup, or what to report.
pub fn backup(source: Result<String, ReadErrorKind>) -> (r: Result<String, ReadFailureReport>)
    ensures
        source is Ok <==> r is Ok,
        source is Ok ==> r->Ok_0@ == source->Ok_0@,
        source is Err ==> report_view(r->Err_0) == backup_failure(source->Err_0),
{
    match source {
        Ok(s) => Ok(s),
        Err(ReadErrorKind::NotFound) => Err(
            ReadFailureReport {
                lead: String::from_str(
                    "==> Tried to backup the /etc/hosts file, but it doesn't even exist: ",
                ),
                separator: String::from_str(", "),
                help: None,
            },
        ),
        Err(ReadErrorKind::PermissionDenied) => Err(denied_report()),
        Err(ReadErrorKind::Other) => Err(other_report()),
    }
}

/// Restoring: given what reading the backup gave, the text to write to the
/// hosts file, or what to report.
pub fn restore(source: Result<String, ReadErrorKind>) -> (r: Result<String, ReadFailureReport>)
    ensures
        source is Ok <==> r is Ok,
        source is Ok ==> r->Ok_0@ == source->Ok_0@,
        source is Err ==> report_view(r->Err_0) == restore_failure(source->Err_0),
{
    match source {
        Ok(s) => Ok(s),
        Err(ReadErrorKind::NotFound) => Err(
            ReadFailureReport {
                lead: String::from_str("==> Tried to restore the backup, but it doesn't even exist: "),
                separator: String::from_str(" "),
                help: None,
            },
        ),
        Err(ReadErrorKind::PermissionDenied) => Err(denied_report()),
        Err(ReadErrorKind::Other) => Err(other_report()),
    }
}

/// Applying: given what reading the local hosts file gave, the text to write
/// to the system hosts file, or what to report.
pub fn apply(source: Result<String, ReadErrorKind>) -> (r: Result<String, ReadFailureReport>)
    ensures
        source is Ok <==> r is Ok,
        source is Ok ==> r->Ok_0@ == source->Ok_0@,
        source is Err ==> report_view(r->Err_0) == apply_failure(source->Err_0),
{
    match source {
        Ok(s) => Ok(s),
        Err(ReadErrorKind::NotFound) => Err(
            ReadFailureReport {
                lead: String::from_str("==> Local hosts don't exist: "),
                separator: String::from_str(" "),
                help: Some(String::from_str("Help: try to run the adblocker with `--sync` argument")),
            },
        ),
        Err(_) => Err(other_report()),
    }
}

} // verus!
