//! The progress notifications sent while the runtime is provisioned and the
//! agent installed.
use vstd::prelude::*;
use crate::download::percent_spec;
use crate::download::download_percent;
use crate::text::{decimal, decimal_string};

verus! {

/// The phase a notification belongs to.
#[derive(Clone, Copy, PartialEq, Eq, Structural, Debug)]
pub enum Step {
    DownloadNode,
    InstallNpm,
    Setup,
}

/// Where a phase stands.
#[derive(Clone, Copy, PartialEq, Eq, Structural, Debug)]
pub enum Status {
    Started,
    Progress,
    Extracting,
    Done,
    Error,
}

impl Step {
    pub fn name(&self) -> (r: &'static str)
        ensures
            r@ == match *self {
                Step::DownloadNode => "download_node"@,
                Step::InstallNpm => "install_npm"@,
                Step::Setup => "setup"@,
            },
    {
        match self {
            Step::DownloadNode => "download_node",
            Step::InstallNpm => "install_npm",
            Step::Setup => "setup",
        }
    }
}

impl Status {
    pub fn name(&self) -> (r: &'static str)
        ensures
            r@ == match *self {
                Status::Started => "started"@,
                Status::Progress => "progress"@,
                Status::Extracting => "extracting"@,
                Status::Done => "done"@,
                Status::Error => "error"@,
            },
    {
        match self {
            Status::Started => "started",
            Status::Progress => "progress",
            Status::Extracting => "extracting",
            Status::Done => "done",
            Status::Error => "error",
        }
    }
}

/// One notification: phase, status, percentage when known, and a message
/// for the user.
pub struct ProgressEvent {
    pub step: Step,
    pub status: Status,
    pub percent: Option<u32>,
    pub message: String,
}

/// The message announcing that `step` started.
pub open spec fn started_message(step: Step) -> Seq<char> {
    match step {
        Step::DownloadNode => "Downloading Node.js..."@,
        Step::InstallNpm => "Installing Remote Clauding..."@,
        Step::Setup => "Installing VSCode extension..."@,
    }
}

/// The message announcing that `step` finished.
pub open spec fn done_message(step: Step) -> Seq<char> {
    match step {
        Step::DownloadNode => "Node.js installed."@,
        Step::InstallNpm => "Remote Clauding installed."@,
        Step::Setup => "VSCode extension installed."@,
    }
}

/// The start of an error message of `step`, before its detail.
pub open spec fn error_prefix(step: Step) -> Seq<char> {
    match step {
        Step::DownloadNode => "Download failed: "@,
        Step::InstallNpm => "npm install failed: "@,
        Step::Setup => "VSCode extension install failed: "@,
    }
}

pub fn started_event(step: Step) -> (r: ProgressEvent)
    ensures
        r.step == step,
        r.status == Status::Started,
        r.percent is None,
        r.message@ == started_message(step),
{
    let m = match step {
        Step::DownloadNode => "Downloading Node.js...",
        Step::InstallNpm => "Installing Remote Clauding...",
        Step::Setup => "Installing VSCode extension...",
    };
    ProgressEvent { step, status: Status::Started, percent: None, message: String::from_str(m) }
}

pub fn done_event(step: Step) -> (r: ProgressEvent)
    ensures
        r.step == step,
        r.status == Status::Done,
        r.percent is None,
        r.message@ == done_message(step),
{
    let m = match step {
        Step::DownloadNode => "Node.js installed.",
        Step::InstallNpm => "Remote Clauding installed.",
        Step::Setup => "VSCode extension installed.",
    };
    ProgressEvent { step, status: Status::Done, percent: None, message: String::from_str(m) }
}

pub fn error_event(step: Step, detail: &str) -> (r: ProgressEvent)
    ensures
        r.step == step,
        r.status == Status::Error,
        r.percent is None,
        r.message@ == error_prefix(step) + detail@,
{
    let mut m = String::from_str(match step {
        Step::DownloadNode => "Download failed: ",
        Step::InstallNpm => "npm install failed: ",
        Step::Setup => "VSCode extension install failed: ",
    });
    m.append(detail);
    ProgressEvent { step, status: Status::Error, percent: None, message: m }
}

/// The notification that ends `step` after its process ran: done when it
/// succeeded, else an error carrying its error output.
pub fn finish_event(step: Step, success: bool, stderr: &str) -> (r: ProgressEvent)
    ensures
        r.step == step,
        r.percent is None,
        success ==> r.status == Status::Done && r.message@ == done_message(step),
        !success ==> r.status == Status::Error && r.message@ == error_prefix(step) + stderr@,
{
    if success {
        done_event(step)
    } else {
        error_event(step, stderr)
    }
}

/// The notification that the runtime archive is being unpacked.
pub fn extracting_event() -> (r: ProgressEvent)
    ensures
        r.step == Step::DownloadNode,
        r.status == Status::Extracting,
        r.percent is None,
        r.message@ == "Extracting Node.js..."@,
{
    ProgressEvent {
        step: Step::DownloadNode,
        status: Status::Extracting,
        percent: None,
        message: String::from_str("Extracting Node.js..."),
    }
}

/// The notification after `downloaded` of `total` bytes arrived; none when
/// the total size is unknown (zero).
pub fn download_progress_event(downloaded: u64, total: u64) -> (r: Option<ProgressEvent>)
    ensures
        match percent_spec(downloaded, total) {
            None => r is None,
            Some(p) => r is Some && r->0.step == Step::DownloadNode && r->0.status == Status::Progress
                && r->0.percent == Some(p)
                && r->0.message@ == "Downloading Node.js... "@ + decimal(p as nat) + "%"@,
        },
{
    match download_percent(downloaded, total) {
        None => None,
        Some(p) => {
            let mut m = String::from_str("Downloading Node.js... ");
            let digits = decimal_string(p);
            m.append(digits.as_str());
            m.append("%");
            Some(ProgressEvent { step: Step::DownloadNode, status: Status::Progress, percent: Some(p), message: m })
        },
    }
}

} // verus!
