//! Android devices over ADB: reading `adb devices`, and the ADB commands that
//! apply or restore the hosts file on a rooted device.
use vstd::prelude::*;

use crate::text::{
    contains, drop_empty, first_field, find_char, lemma_drop_empty_append,
    lemma_drop_empty_cons, lemma_views_push, lines, lines_of, second_field, str_chars, str_contains,
    str_eq, string_from_range, trim, trim_string, views,
};

verus! {

/// A line of `adb devices` names `device` as ready: its first tab-separated
/// field (after trimming) is the device ID and the line mentions `device`.
pub open spec fn device_line_ready(line: Seq<char>, device: Seq<char>) -> bool {
    first_field(trim(line), '\t') == device && contains(trim(line), "device"@)
}

/// Some line of the `adb devices` output names `device` as ready.
pub open spec fn device_ready_spec(devices_output: Seq<char>, device: Seq<char>) -> bool {
    exists|i: int|
        0 <= i < lines(devices_output).len() && device_line_ready(
            #[trigger] lines(devices_output)[i],
            device,
        )
}

/// Whether the output of `adb devices` shows `device` as ready.
pub fn device_ready(devices_output: &str, device: &str) -> (r: bool)
    ensures
        r == device_ready_spec(devices_output@, device@),
{
    let ls = lines_of(devices_output);
    let mut i: usize = 0;
    while i < ls.len()
        invariant
            i <= ls.len(),
            views(ls@) == lines(devices_output@),
            forall|j: int| 0 <= j < i ==> !device_line_ready(#[trigger] views(ls@)[j], device@),
        decreases ls.len() - i,
    {
        let t = trim_string(ls[i].as_str());
        let tv = str_chars(t.as_str());
        let k = find_char(&tv, 0, '\t');
        assert(tv@.skip(0) =~= tv@);
        let id = string_from_range(&tv, 0, k);
        assert(views(ls@)[i as int] == ls@[i as int]@);
        if str_eq(id.as_str(), device) && str_contains(t.as_str(), "device") {
            assert(device_line_ready(lines(devices_output@)[i as int], device@));
            return true;
        }
        i = i + 1;
    }
    false
}

/// A device listed by `adb devices`.
#[derive(Debug)]
pub struct AndroidDevice {
    pub id: String,
    pub state: String,
}

/// Why no device can be listed.
#[derive(Debug, PartialEq, Eq, Structural)]
pub enum DeviceListError {
    /// The output has exactly two lines: the heading and a blank line.
    NoDevice,
}

/// The (ID, state) pair of a device line: its first and second tab-separated fields.
pub open spec fn device_entry(line: Seq<char>) -> (Seq<char>, Seq<char>) {
    (first_field(line, '\t'), second_field(line, '\t'))
}

/// The devices of an `adb devices` output: every non-empty line after the heading.
pub open spec fn device_entries(ls: Seq<Seq<char>>) -> Seq<(Seq<char>, Seq<char>)> {
    if ls.len() == 0 {
        seq![]
    } else {
        drop_empty(ls.skip(1)).map_values(|l: Seq<char>| device_entry(l))
    }
}

/// The (ID, state) pairs of a list of devices.
pub open spec fn device_views(ds: Seq<AndroidDevice>) -> Seq<(Seq<char>, Seq<char>)> {
    ds.map_values(|d: AndroidDevice| (d.id@, d.state@))
}

fn parse_device_line(line: &str) -> (d: AndroidDevice)
    ensures
        (d.id@, d.state@) == device_entry(line@),
{
    let v = str_chars(line);
    let k = find_char(&v, 0, '\t');
    assert(v@.skip(0) =~= v@);
    let id = string_from_range(&v, 0, k);
    let state = if k < v.len() {
        let k2 = find_char(&v, k + 1, '\t');
        assert(v@.skip(k + 1).take((k2 - (k + 1)) as int) =~= v@.subrange(k + 1, k2 as int));
        string_from_range(&v, k + 1, k2)
    } else {
        String::new()
    };
    AndroidDevice { id, state }
}

/// The devices in the output of `adb devices`, or `NoDevice` when it has exactly
/// two lines.
pub fn list_devices(devices_output: &str) -> (r: Result<Vec<AndroidDevice>, DeviceListError>)
    ensures
        lines(devices_output@).len() == 2 <==> r is Err,
        r is Ok ==> device_views(r->Ok_0@) == device_entries(lines(devices_output@)),
{
    let ls = lines_of(devices_output);
    if ls.len() == 2 {
        return Err(DeviceListError::NoDevice);
    }
    let mut r: Vec<AndroidDevice> = Vec::new();
    if ls.len() == 0 {
        assert(device_views(r@) =~= Seq::<(Seq<char>, Seq<char>)>::empty());
        return Ok(r);
    }
    let mut i: usize = 1;
    assert(views(ls@).subrange(1, 1) =~= Seq::<Seq<char>>::empty());
    while i < ls.len()
        invariant
            1 <= i <= ls.len(),
            views(ls@) == lines(devices_output@),
            device_views(r@) == drop_empty(views(ls@).subrange(1, i as int)).map_values(
                |l: Seq<char>| device_entry(l),
            ),
        decreases ls.len() - i,
    {
        let ghost before = views(ls@).subrange(1, i as int);
        let ghost x = ls@[i as int]@;
        proof {
            assert(views(ls@).subrange(1, i + 1) =~= before + seq![x]);
            lemma_drop_empty_append(before, seq![x]);
            lemma_drop_empty_cons(x, seq![]);
            assert(drop_empty(Seq::<Seq<char>>::empty()) == Seq::<Seq<char>>::empty());
        }
        if !ls[i].as_str().is_empty() {
            let d = parse_device_line(ls[i].as_str());
            let ghost r0 = r@;
            r.push(d);
            proof {
                assert(seq![x] + drop_empty(Seq::<Seq<char>>::empty()) =~= seq![x]);
                assert(device_views(r@) =~= device_views(r0).push(device_entry(x)));
                assert(drop_empty(before + seq![x]) =~= drop_empty(before).push(x));
                assert(drop_empty(before).push(x).map_values(|l: Seq<char>| device_entry(l))
                    =~= drop_empty(before).map_values(|l: Seq<char>| device_entry(l)).push(
                    device_entry(x),
                ));
            }
        } else {
            proof {
                assert(Seq::<Seq<char>>::empty() + drop_empty(Seq::<Seq<char>>::empty()) =~= Seq::<
                    Seq<char>,
                >::empty());
                assert(drop_empty(before + seq![x]) =~= drop_empty(before));
            }
        }
        i = i + 1;
    }
    assert(views(ls@).subrange(1, ls.len() as int) =~= views(ls@).skip(1));
    Ok(r)
}

/// The model reported by `getprop`, or `unknown model` when it reported nothing.
pub open spec fn model_label(raw: Seq<char>) -> Seq<char> {
    if raw.len() == 0 {
        trim("unknown model"@)
    } else {
        trim(raw)
    }
}

/// The model shown for a device, from what `getprop ro.product.model` printed.
pub fn device_model_label(raw: &str) -> (r: String)
    ensures
        r@ == model_label(raw@),
{
    if raw.is_empty() {
        trim_string("unknown model")
    } else {
        trim_string(raw)
    }
}

/// What happens when an ADB step fails.
#[derive(Clone, Copy, Debug, PartialEq, Eq, Structural)]
pub enum OnFailure {
    /// Report the failure in bold red and exit with status 1.
    Abort,
    /// Report the failure in bold yellow and go on.
    Warn,
    /// Report in bold yellow and exit with status 0.
    StopQuietly,
}

/// One ADB command of an Android operation: the message shown while it runs,
/// the arguments of `adb`, and what to print and do when it fails (the failure
/// line is `failure_prefix`, then `failure_label` in colour, then `failure_text`).
#[derive(Debug)]
pub struct AdbStep {
    pub spinner: String,
    pub args: Vec<String>,
    pub on_failure: OnFailure,
    pub failure_prefix: String,
    pub failure_label: String,
    pub failure_text: String,
    /// The command's error output is discarded too.
    pub silence_stderr: bool,
}

/// The view of a step.
pub struct AdbStepView {
    pub spinner: Seq<char>,
    pub args: Seq<Seq<char>>,
    pub on_failure: OnFailure,
    pub failure_prefix: Seq<char>,
    pub failure_label: Seq<char>,
    pub failure_text: Seq<char>,
    pub silence_stderr: bool,
}

impl View for AdbStep {
    type V = AdbStepView;

    open spec fn view(&self) -> AdbStepView {
        AdbStepView {
            spinner: self.spinner@,
            args: views(self.args@),
            on_failure: self.on_failure,
            failure_prefix: self.failure_prefix@,
            failure_label: self.failure_label@,
            failure_text: self.failure_text@,
            silence_stderr: self.silence_stderr,
        }
    }
}

/// The views of a list of steps.
pub open spec fn step_views(s: Seq<AdbStep>) -> Seq<AdbStepView> {
    s.map_values(|x: AdbStep| x@)
}

fn to_strings(items: &[&str]) -> (r: Vec<String>)
    ensures
        views(r@) == items@.map_values(|s: &str| s@),
{
    let mut r: Vec<String> = Vec::new();
    let mut i: usize = 0;
    while i < items.len()
        invariant
            i <= items.len(),
            views(r@) == items@.take(i as int).map_values(|s: &str| s@),
        decreases items.len() - i,
    {
        let s = String::from_str(items[i]);
        proof {
            lemma_views_push(r@, s);
        }
        r.push(s);
        assert(items@.take(i + 1).map_values(|s: &str| s@) =~= items@.take(i as int).map_values(
            |s: &str| s@,
        ).push(items@[i as int]@));
        i = i + 1;
    }
    assert(items@.take(i as int) =~= items@);
    r
}

fn step(
    spinner: &str,
    args: Vec<String>,
    on_failure: OnFailure,
    prefix: &str,
    label: &str,
    text: &str,
    silence_stderr: bool,
) -> (s: AdbStep)
    ensures
        s@ == (AdbStepView {
            spinner: spinner@,
            args: views(args@),
            on_failure,
            failure_prefix: prefix@,
            failure_label: label@,
            failure_text: text@,
            silence_stderr,
        }),
{
    AdbStep {
        spinner: String::from_str(spinner),
        args,
        on_failure,
        failure_prefix: String::from_str(prefix),
        failure_label: String::from_str(label),
        failure_text: String::from_str(text),
        silence_stderr,
    }
}

/// Arguments of `adb` that remount the device's root file system (`mode`: `rw` or `ro`).
pub open spec fn remount_args(device: Seq<char>, mode: Seq<char>) -> Seq<Seq<char>> {
    seq!["-s"@, device, "shell"@, "su"@, "-c"@, "mount"@, "-o"@, mode + ",remount"@, "/"@]
}

/// Arguments of `adb` that post the "Successfully applied" notification.
pub open spec fn notification_args(device: Seq<char>) -> Seq<Seq<char>> {
    seq![
        "-s"@,
        device,
        "shell"@,
        "cmd"@,
        "notification"@,
        "post"@,
        "-t"@,
        "'Blokator'"@,
        "'Blokator'"@,
        "'Successfully applied'"@,
    ]
}

/// Arguments of `adb` that post the notification announcing the blocker is active.
pub fn send_notification(android_device: &str) -> (r: Vec<String>)
    ensures
        views(r@) == notification_args(android_device@),
{
    let r = to_strings(
        &[
            "-s",
            android_device,
            "shell",
            "cmd",
            "notification",
            "post",
            "-t",
            "'Blokator'",
            "'Blokator'",
            "'Successfully applied'",
        ],
    );
    assert(views(r@) =~= notification_args(android_device@));
    r
}

fn remount(device: &str, rw: bool) -> (r: Vec<String>)
    ensures
        views(r@) == remount_args(device@, if rw { "rw"@ } else { "ro"@ }),
{
    let mode = if rw {
        "rw,remount"
    } else {
        "ro,remount"
    };
    let r = to_strings(&["-s", device, "shell", "su", "-c", "mount", "-o", mode, "/"]);
    proof {
        reveal_strlit("rw,remount");
        reveal_strlit("ro,remount");
        reveal_strlit("rw");
        reveal_strlit("ro");
        reveal_strlit(",remount");
        assert(("rw"@ + ",remount"@) =~= "rw,remount"@);
        assert(("ro"@ + ",remount"@) =~= "ro,remount"@);
    }
    assert(views(r@) =~= remount_args(device@, if rw { "rw"@ } else { "ro"@ }));
    r
}

/// The ADB steps that apply the local hosts file (in `data_dir`) on `device`:
/// remount `/` read-write, push the file to `/sdcard/hosts`, back up
/// `/etc/hosts`, move the pushed file to `/etc/hosts`, remount `/` read-only
/// (only a warning when it fails), and post a notification.
pub open spec fn apply_android_spec(device: Seq<char>, data_dir: Seq<char>) -> Seq<AdbStepView> {
    seq![
        AdbStepView {
            spinner: "android_mounting_rw"@,
            args: remount_args(device, "rw"@),
            on_failure: OnFailure::Abort,
            failure_prefix: ""@,
            failure_label: "error:"@,
            failure_text: " Failed to mount system as read & write"@,
            silence_stderr: false,
        },
        AdbStepView {
            spinner: "android_temp_push"@,
            args: seq!["-s"@, device, "push"@, data_dir + "/hosts"@, "/sdcard/hosts"@],
            on_failure: OnFailure::Abort,
            failure_prefix: ""@,
            failure_label: "error:"@,
            failure_text: " Cannot push the hosts file to the Android device"@,
            silence_stderr: false,
        },
        AdbStepView {
            spinner: "android_backup_create"@,
            args: seq![
                "-s"@,
                device,
                "shell"@,
                "su"@,
                "-c"@,
                "'cp"@,
                "/etc/hosts"@,
                "/etc/hosts.backup'"@,
            ],
            on_failure: OnFailure::Abort,
            failure_prefix: ""@,
            failure_label: "error:"@,
            failure_text: " Cannot make a backup of the hosts file"@,
            silence_stderr: false,
        },
        AdbStepView {
            spinner: "android_apply_hosts"@,
            args: seq![
                "-s"@,
                device,
                "shell"@,
                "su"@,
                "-c"@,
                "'mv"@,
                "/sdcard/hosts"@,
                "/etc/hosts'"@,
            ],
            on_failure: OnFailure::Abort,
            failure_prefix: ""@,
            failure_label: "error:"@,
            failure_text: " Cannot apply the hosts file"@,
            silence_stderr: false,
        },
        AdbStepView {
            spinner: "android_mounting_ro"@,
            args: remount_args(device, "ro"@),
            on_failure: OnFailure::Warn,
            failure_prefix: ""@,
            failure_label: "error:"@,
            failure_text: " Failed to mount the system as read only"@,
            silence_stderr: false,
        },
        AdbStepView {
            spinner: "android_send_message"@,
            args: notification_args(device),
            on_failure: OnFailure::StopQuietly,
            failure_prefix: ""@,
            failure_label: "error"@,
            failure_text: ""@,
            silence_stderr: true,
        },
    ]
}

/// The ADB steps that put the backup back on `device`: remount `/` read-write,
/// copy `/etc/hosts.backup` over `/etc/hosts`, remount `/` read-only (only a
/// warning when it fails).
pub open spec fn restore_android_spec(device: Seq<char>) -> Seq<AdbStepView> {
    seq![
        AdbStepView {
            spinner: "android_mounting_rw"@,
            args: remount_args(device, "rw"@),
            on_failure: OnFailure::Abort,
            failure_prefix: "  "@,
            failure_label: "error:"@,
            failure_text: " Failed to mount system as read & write"@,
            silence_stderr: false,
        },
        AdbStepView {
            spinner: "android_restore"@,
            args: seq![
                "-s"@,
                device,
                "shell"@,
                "su"@,
                "-c"@,
                "'cp"@,
                "/etc/hosts.backup"@,
                "/etc/hosts'"@,
            ],
            on_failure: OnFailure::Abort,
            failure_prefix: "  "@,
            failure_label: "error:"@,
            failure_text: " Cannot restore a backup of the hosts file"@,
            silence_stderr: false,
        },
        AdbStepView {
            spinner: "android_mounting_ro"@,
            args: remount_args(device, "ro"@),
            on_failure: OnFailure::Warn,
            failure_prefix: "  "@,
            failure_label: "error:"@,
            failure_text: " Failed to mount the system as read only"@,
            silence_stderr: false,
        },
    ]
}

/// Why an Android operation was refused before any change to the device.
#[derive(Debug, PartialEq, Eq, Structural)]
pub enum AndroidError {
    /// `adb devices` does not show the device as ready.
    DeviceNotReady,
}

/// Applying the hosts file on an Android device: refused when the output of
/// `adb devices` does not show the device as ready; otherwise the ADB steps.
pub fn apply_android(android_device: &str, data_dir: &str, devices_output: &str) -> (r: Result<Vec<AdbStep>, AndroidError>)
    ensures
        !device_ready_spec(devices_output@, android_device@) ==> r == Err::<Vec<AdbStep>, AndroidError>(
            AndroidError::DeviceNotReady,
        ),
        device_ready_spec(devices_output@, android_device@) ==> r is Ok && step_views(r->Ok_0@)
            == apply_android_spec(android_device@, data_dir@),
{
    if !device_ready(devices_output, android_device) {
        return Err(AndroidError::DeviceNotReady);
    }
    Ok(apply_android_steps(android_device, data_dir))
}

/// Restoring the hosts file backup on an Android device: refused when the
/// output of `adb devices` does not show the device as ready; otherwise the
/// ADB steps.
pub fn restore_android(android_device: &str, devices_output: &str) -> (r: Result<Vec<AdbStep>, AndroidError>)
    ensures
        !device_ready_spec(devices_output@, android_device@) ==> r == Err::<Vec<AdbStep>, AndroidError>(
            AndroidError::DeviceNotReady,
        ),
        device_ready_spec(devices_output@, android_device@) ==> r is Ok && step_views(r->Ok_0@)
            == restore_android_spec(android_device@),
{
    if !device_ready(devices_output, android_device) {
        return Err(AndroidError::DeviceNotReady);
    }
    Ok(restore_android_steps(android_device))
}

fn apply_android_steps(android_device: &str, data_dir: &str) -> (r: Vec<AdbStep>)
    ensures
        step_views(r@) == apply_android_spec(android_device@, data_dir@),
{
    let d = android_device;
    let ghost spec = apply_android_spec(android_device@, data_dir@);
    let s0 = step(
        "android_mounting_rw",
        remount(d, true),
        OnFailure::Abort,
        "",
        "error:",
        " Failed to mount system as read & write",
        false,
    );
    assert(s0@ == spec[0]);
    let hosts = String::from_str(data_dir).concat("/hosts");
    let mut push_args = to_strings(&["-s", d, "push"]);
    proof {
        lemma_views_push(push_args@, hosts);
    }
    push_args.push(hosts);
    let sd = String::from_str("/sdcard/hosts");
    proof {
        lemma_views_push(push_args@, sd);
    }
    push_args.push(sd);
    assert(views(push_args@) =~= seq!["-s"@, d@, "push"@, data_dir@ + "/hosts"@, "/sdcard/hosts"@]);
    let s1 = step(
        "android_temp_push",
        push_args,
        OnFailure::Abort,
        "",
        "error:",
        " Cannot push the hosts file to the Android device",
        false,
    );
    assert(s1@ == spec[1]);
    let a2 = to_strings(&["-s", d, "shell", "su", "-c", "'cp", "/etc/hosts", "/etc/hosts.backup'"]);
    assert(views(a2@) =~= spec[2].args);
    let s2 = step(
        "android_backup_create",
        a2,
        OnFailure::Abort,
        "",
        "error:",
        " Cannot make a backup of the hosts file",
        false,
    );
    assert(s2@ == spec[2]);
    let a3 = to_strings(&["-s", d, "shell", "su", "-c", "'mv", "/sdcard/hosts", "/etc/hosts'"]);
    assert(views(a3@) =~= spec[3].args);
    let s3 = step(
        "android_apply_hosts",
        a3,
        OnFailure::Abort,
        "",
        "error:",
        " Cannot apply the hosts file",
        false,
    );
    assert(s3@ == spec[3]);
    let s4 = step(
        "android_mounting_ro",
        remount(d, false),
        OnFailure::Warn,
        "",
        "error:",
        " Failed to mount the system as read only",
        false,
    );
    assert(s4@ == spec[4]);
    let s5 = step(
        "android_send_message",
        send_notification(d),
        OnFailure::StopQuietly,
        "",
        "error",
        "",
        true,
    );
    assert(s5@ == spec[5]);
    let ghost vs = seq![s0@, s1@, s2@, s3@, s4@, s5@];
    let mut r: Vec<AdbStep> = Vec::new();
    r.push(s0);
    r.push(s1);
    r.push(s2);
    r.push(s3);
    r.push(s4);
    r.push(s5);
    assert(step_views(r@) =~= vs);
    assert(vs =~= spec);
    r
}

fn restore_android_steps(android_device: &str) -> (r: Vec<AdbStep>)
    ensures
        step_views(r@) == restore_android_spec(android_device@),
{
    let d = android_device;
    let ghost spec = restore_android_spec(android_device@);
    let s0 = step(
        "android_mounting_rw",
        remount(d, true),
        OnFailure::Abort,
        "  ",
        "error:",
        " Failed to mount system as read & write",
        false,
    );
    assert(s0@ == spec[0]);
    let a1 = to_strings(&["-s", d, "shell", "su", "-c", "'cp", "/etc/hosts.backup", "/etc/hosts'"]);
    assert(views(a1@) =~= spec[1].args);
    let s1 = step(
        "android_restore",
        a1,
        OnFailure::Abort,
        "  ",
        "error:",
        " Cannot restore a backup of the hosts file",
        false,
    );
    assert(s1@ == spec[1]);
    let s2 = step(
        "android_mounting_ro",
        remount(d, false),
        OnFailure::Warn,
        "  ",
        "error:",
        " Failed to mount the system as read only",
        false,
    );
    assert(s2@ == spec[2]);
    let ghost vs = seq![s0@, s1@, s2@];
    let mut r: Vec<AdbStep> = Vec::new();
    r.push(s0);
    r.push(s1);
    r.push(s2);
    assert(step_views(r@) =~= vs);
    assert(vs =~= spec);
    r
}

/// What to do after a step ran.
#[derive(Clone, Copy, Debug, PartialEq, Eq, Structural)]
pub enum StepOutcome {
    /// Go on with the next step.
    Continue,
    /// End the program with this status.
    Exit(i32),
}

/// The outcome of a step that succeeded or failed.
pub open spec fn step_outcome_spec(on_failure: OnFailure, succeeded: bool) -> StepOutcome {
    if succeeded {
        StepOutcome::Continue
    } else {
        match on_failure {
            OnFailure::Abort => StepOutcome::Exit(1),
            OnFailure::Warn => StepOutcome::Continue,
            OnFailure::StopQuietly => StepOutcome::Exit(0),
        }
    }
}

/// What to do after a step ran.
pub fn step_outcome(on_failure: OnFailure, succeeded: bool) -> (r: StepOutcome)
    ensures
        r == step_outcome_spec(on_failure, succeeded),
{
    if succeeded {
        StepOutcome::Continue
    } else {
        match on_failure {
            OnFailure::Abort => StepOutcome::Exit(1),
            OnFailure::Warn => StepOutcome::Continue,
            OnFailure::StopQuietly => StepOutcome::Exit(0),
        }
    }
}


/// Applying on a ready device runs six ADB commands in this order: remount `/`
/// read-write, push the local hosts file to `/sdcard/hosts`, copy `/etc/hosts`
/// to `/etc/hosts.backup`, move the pushed file onto `/etc/hosts`, remount `/`
/// read-only, post the "Successfully applied" notification. A failure of any of the first four ends
/// the program with status 1 before anything later runs, so `/etc/hosts` is
/// only replaced once the backup copy succeeded; a failed read-only remount
/// only warns, and a failed notification ends the program with status 0.
pub proof fn lemma_apply_android_order(device: Seq<char>, data_dir: Seq<char>)
    ensures
        ({
            let s = apply_android_spec(device, data_dir);
            &&& s.len() == 6
            &&& s[0].args == seq![
                "-s"@,
                device,
                "shell"@,
                "su"@,
                "-c"@,
                "mount"@,
                "-o"@,
                "rw,remount"@,
                "/"@,
            ]
            &&& s[1].args == seq!["-s"@, device, "push"@, data_dir + "/hosts"@, "/sdcard/hosts"@]
            &&& s[2].args == seq![
                "-s"@,
                device,
                "shell"@,
                "su"@,
                "-c"@,
                "'cp"@,
                "/etc/hosts"@,
                "/etc/hosts.backup'"@,
            ]
            &&& s[3].args == seq![
                "-s"@,
                device,
                "shell"@,
                "su"@,
                "-c"@,
                "'mv"@,
                "/sdcard/hosts"@,
                "/etc/hosts'"@,
            ]
            &&& s[4].args == seq![
                "-s"@,
                device,
                "shell"@,
                "su"@,
                "-c"@,
                "mount"@,
                "-o"@,
                "ro,remount"@,
                "/"@,
            ]
            &&& s[5].args == seq![
                "-s"@,
                device,
                "shell"@,
                "cmd"@,
                "notification"@,
                "post"@,
                "-t"@,
                "'Blokator'"@,
                "'Blokator'"@,
                "'Successfully applied'"@,
            ]
            &&& forall|i: int|
                0 <= i < 4 ==> #[trigger] s[i].on_failure == OnFailure::Abort
                    && step_outcome_spec(s[i].on_failure, false) == StepOutcome::Exit(1)
            &&& s[4].on_failure == OnFailure::Warn
            &&& step_outcome_spec(s[4].on_failure, false) == StepOutcome::Continue
            &&& s[5].on_failure == OnFailure::StopQuietly
            &&& step_outcome_spec(s[5].on_failure, false) == StepOutcome::Exit(0)
        }),
{
    reveal_strlit("rw,remount");
    reveal_strlit("ro,remount");
    reveal_strlit("rw");
    reveal_strlit("ro");
    reveal_strlit(",remount");
    assert(("rw"@ + ",remount"@) =~= "rw,remount"@);
    assert(("ro"@ + ",remount"@) =~= "ro,remount"@);
    let s = apply_android_spec(device, data_dir);
    assert(s[0].args =~= seq![
        "-s"@,
        device,
        "shell"@,
        "su"@,
        "-c"@,
        "mount"@,
        "-o"@,
        "rw,remount"@,
        "/"@,
    ]);
    assert(s[4].args =~= seq![
        "-s"@,
        device,
        "shell"@,
        "su"@,
        "-c"@,
        "mount"@,
        "-o"@,
        "ro,remount"@,
        "/"@,
    ]);
}

/// Restoring on a ready device runs three ADB commands in this order: remount
/// `/` read-write, copy `/etc/hosts.backup` over `/etc/hosts`, remount `/`
/// read-only. A failure of either of the first two ends the program with
/// status 1; a failed read-only remount only warns.
pub proof fn lemma_restore_android_order(device: Seq<char>)
    ensures
        ({
            let s = restore_android_spec(device);
            &&& s.len() == 3
            &&& s[0].args == seq![
                "-s"@,
                device,
                "shell"@,
                "su"@,
                "-c"@,
                "mount"@,
                "-o"@,
                "rw,remount"@,
                "/"@,
            ]
            &&& s[1].args == seq![
                "-s"@,
                device,
                "shell"@,
                "su"@,
                "-c"@,
                "'cp"@,
                "/etc/hosts.backup"@,
                "/etc/hosts'"@,
            ]
            &&& s[2].args == seq![
                "-s"@,
                device,
                "shell"@,
                "su"@,
                "-c"@,
                "mount"@,
                "-o"@,
                "ro,remount"@,
                "/"@,
            ]
            &&& s[0].on_failure == OnFailure::Abort
            &&& s[1].on_failure == OnFailure::Abort
            &&& step_outcome_spec(s[0].on_failure, false) == StepOutcome::Exit(1)
            &&& step_outcome_spec(s[1].on_failure, false) == StepOutcome::Exit(1)
            &&& s[2].on_failure == OnFailure::Warn
            &&& step_outcome_spec(s[2].on_failure, false) == StepOutcome::Continue
        }),
{
    reveal_strlit("rw,remount");
    reveal_strlit("ro,remount");
    reveal_strlit("rw");
    reveal_strlit("ro");
    reveal_strlit(",remount");
    assert(("rw"@ + ",remount"@) =~= "rw,remount"@);
    assert(("ro"@ + ",remount"@) =~= "ro,remount"@);
    let s = restore_android_spec(device);
    assert(s[0].args =~= seq![
        "-s"@,
        device,
        "shell"@,
        "su"@,
        "-c"@,
        "mount"@,
        "-o"@,
        "rw,remount"@,
        "/"@,
    ]);
    assert(s[2].args =~= seq![
        "-s"@,
        device,
        "shell"@,
        "su"@,
        "-c"@,
        "mount"@,
        "-o"@,
        "ro,remount"@,
        "/"@,
    ]);
}

/// The ID of a device line is the whole text before its first tab, whatever
/// characters it holds, and its state the text between the first tab and the
/// next one (or the end): a line with a tab is the ID, a tab, the state and
/// then either nothing or another tab; a line without one is the ID alone,
/// with an empty state.
pub proof fn lemma_device_line_fields(line: Seq<char>)
    ensures
        ({
            let (id, state) = device_entry(line);
            &&& !id.contains('\t')
            &&& !state.contains('\t')
            &&& line.contains('\t') ==> line == id + seq!['\t'] + line.skip(id.len() + 1int)
                && line.skip(id.len() + 1int).take(state.len() as int) == state
                && (line.len() == id.len() + 1 + state.len()
                    || line[id.len() + 1int + state.len()] == '\t')
            &&& !line.contains('\t') ==> id == line && state.len() == 0
        }),
{
    crate::text::lemma_char_index_bound(line, '\t');
    let k = crate::text::char_index(line, '\t');
    let id = line.take(k as int);
    assert(!id.contains('\t')) by {
        if id.contains('\t') {
            let j = choose|j: int| 0 <= j < id.len() && id[j] == '\t';
            assert(line[j] == '\t');
        }
    }
    if k < line.len() {
        assert(line.contains('\t')) by {
            assert(line[k as int] == '\t');
        }
        let rest = line.skip((k + 1) as int);
        crate::text::lemma_char_index_bound(rest, '\t');
        let k2 = crate::text::char_index(rest, '\t');
        let state = rest.take(k2 as int);
        assert(line =~= id + seq!['\t'] + rest);
        assert(!state.contains('\t')) by {
            if state.contains('\t') {
                let j = choose|j: int| 0 <= j < state.len() && state[j] == '\t';
                assert(rest[j] == '\t');
            }
        }
        if k2 < rest.len() {
            assert(line[k + 1int + k2] == rest[k2 as int]);
        }
    } else {
        assert(id =~= line);
        assert(!line.contains('\t'));
    }
}

/// Each device listed from an `adb devices` output comes, in order, from a
/// non-empty line after the heading, and its ID is the whole text of that
/// line before the first tab (the whole line when it holds none).
pub proof fn lemma_listed_device_ids(devices_output: Seq<char>)
    ensures
        ({
            let ls = lines(devices_output);
            let body = if ls.len() == 0 {
                Seq::<Seq<char>>::empty()
            } else {
                drop_empty(ls.skip(1))
            };
            let es = device_entries(ls);
            &&& es.len() == body.len()
            &&& forall|i: int|
                0 <= i < es.len() ==> {
                    &&& body[i].len() > 0
                    &&& !(#[trigger] es[i]).0.contains('\t')
                    &&& body[i].contains('\t') ==> body[i] == es[i].0 + seq!['\t'] + body[i].skip(
                        es[i].0.len() + 1int,
                    )
                    &&& !body[i].contains('\t') ==> es[i].0 == body[i]
                }
        }),
{
    let ls = lines(devices_output);
    if ls.len() > 0 {
        let body = drop_empty(ls.skip(1));
        assert(device_entries(ls).len() == body.len());
        assert forall|i: int| 0 <= i < body.len() implies #[trigger] body[i].len() > 0 by {
            crate::text::lemma_drop_empty_nonempty(ls.skip(1), i);
        }
        assert forall|i: int| 0 <= i < device_entries(ls).len() implies {
            &&& body[i].len() > 0
            &&& !(#[trigger] device_entries(ls)[i]).0.contains('\t')
            &&& body[i].contains('\t') ==> body[i] == device_entries(ls)[i].0 + seq!['\t']
                + body[i].skip(device_entries(ls)[i].0.len() + 1int)
            &&& !body[i].contains('\t') ==> device_entries(ls)[i].0 == body[i]
        } by {
            assert(device_entries(ls)[i] == device_entry(body[i]));
            crate::text::lemma_drop_empty_nonempty(ls.skip(1), i);
            lemma_device_line_fields(body[i]);
        }
    }
}

} // verus!
