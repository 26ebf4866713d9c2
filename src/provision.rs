//! Provisioning the private runtime, as a step machine: the caller performs
//! each action (request, write, unpack, remove, save) and reports how it
//! went; the machine decides what comes next, which notifications go out,
//! and how the whole run ends.
use vstd::prelude::*;
use crate::platform::{Os, Arch, join, path_join};
use crate::layout::{portable_node_dir, get_portable_node_dir, opt_view};
use crate::locator::{node_binary, get_node_binary};
use crate::download::{archive_name, archive_url, node_version, percent_spec, get_node_download_url};
use crate::config::NodeConfig;
use crate::text::decimal;
use crate::progress::{
    ProgressEvent, Step, Status, started_message, done_message, started_event, done_event,
    extracting_event, download_progress_event,
};

verus! {

/// Where a provisioning run stands.
#[derive(Clone, Copy, PartialEq, Eq, Structural, Debug)]
pub enum Phase {
    /// Nothing done yet.
    Start,
    /// The download was requested.
    Requesting,
    /// The archive file is being created; `total` is the announced size
    /// (0 when unknown).
    Creating { total: u64 },
    /// Chunks are arriving.
    Receiving { downloaded: u64, total: u64 },
    /// The runtime directory is being replaced by an empty one.
    Replacing,
    /// The archive is being unpacked.
    Unpacking,
    /// The archive is being removed; `failed` when unpacking failed.
    Cleaning { failed: bool },
    /// The runtime configuration is being saved.
    Saving,
    /// The run is over.
    Finished,
}

/// What came of the last action.
pub enum ProvisionEvent {
    /// Start the run.
    Begin,
    /// The server answered with `status` (its code and its text) and
    /// announced `content_length` bytes, if it did.
    Response { status: u16, status_text: String, content_length: Option<u64> },
    /// One chunk of `n` bytes was read and written; 0 means the stream ended.
    Received(u64),
    /// Reading the stream failed.
    ReadFailed(String),
    /// Writing the archive failed.
    WriteFailed(String),
    /// The last action failed with this error.
    Failed(String),
    /// The last action completed (removing the archive and saving the
    /// configuration are best effort and always complete).
    Completed,
}

/// The next thing for the caller to do.
pub enum ProvisionAction {
    /// Request `url`.
    Request { url: String },
    /// Create the archive file at `path`.
    CreateArchive { path: String },
    /// Read the next chunk of the response and append it to the archive.
    CopyChunk,
    /// Remove the directory at `path` if it exists (best effort), then
    /// create it.
    ReplaceDir { path: String },
    /// Unpack the archive at `archive` into `dest`; a zip archive when
    /// `zip`, else a gzip-compressed tar archive.
    Unpack { archive: String, dest: String, zip: bool },
    /// Remove the file at `path` (best effort).
    RemoveArchive { path: String },
    /// Save this runtime configuration (best effort).
    SaveConfig(NodeConfig),
    /// The run is over: the runtime's executable, or the error.
    Finish(Result<String, String>),
}

/// An action with the notification to send before it, if any.
pub struct ProvisionStep {
    pub notify: Option<ProgressEvent>,
    pub action: ProvisionAction,
}

/// A provisioning run for one platform and configuration directory.
pub struct Provisioner {
    pub os: Os,
    pub arch: Arch,
    pub config_dir: String,
    pub phase: Phase,
    /// The unpacking error, kept while the archive is removed.
    pub failure: Option<String>,
}

/// The events each phase waits for.
pub open spec fn expects(phase: Phase, e: ProvisionEvent) -> bool {
    match phase {
        Phase::Start => e is Begin,
        Phase::Requesting => e is Response || e is Failed,
        Phase::Creating { .. } => e is Completed || e is Failed,
        Phase::Receiving { .. } => e is Received || e is ReadFailed || e is WriteFailed,
        Phase::Replacing => e is Completed || e is Failed,
        Phase::Unpacking => e is Completed || e is Failed,
        Phase::Cleaning { .. } => e is Completed,
        Phase::Saving => e is Completed,
        Phase::Finished => false,
    }
}

/// The phase after event `e`.
pub open spec fn next_phase(phase: Phase, e: ProvisionEvent) -> Phase {
    match (phase, e) {
        (Phase::Start, ProvisionEvent::Begin) => Phase::Requesting,
        (Phase::Requesting, ProvisionEvent::Response { status, content_length, .. }) =>
            if 200 <= status && status <= 299 {
                Phase::Creating { total: match content_length { Some(t) => t, None => 0 } }
            } else {
                Phase::Finished
            },
        (Phase::Creating { total }, ProvisionEvent::Completed) => Phase::Receiving { downloaded: 0, total },
        (Phase::Receiving { downloaded, total }, ProvisionEvent::Received(n)) =>
            if n == 0 { Phase::Replacing } else { Phase::Receiving { downloaded: sat_add(downloaded, n), total } },
        (Phase::Replacing, ProvisionEvent::Completed) => Phase::Unpacking,
        (Phase::Unpacking, ProvisionEvent::Completed) => Phase::Cleaning { failed: false },
        (Phase::Unpacking, ProvisionEvent::Failed(_)) => Phase::Cleaning { failed: true },
        (Phase::Cleaning { failed }, ProvisionEvent::Completed) => if failed { Phase::Finished } else { Phase::Saving },
        _ => Phase::Finished,
    }
}

/// The archive is unpacked only right after its destination was replaced by
/// an empty directory, which happens only once the download ended; and a
/// run whose unpacking failed ends without saving a configuration.
pub proof fn lemma_unpack_follows_wipe(phase: Phase, e: ProvisionEvent)
    requires
        expects(phase, e),
    ensures
        next_phase(phase, e) == Phase::Unpacking ==> phase == Phase::Replacing && e is Completed,
        next_phase(phase, e) == Phase::Replacing ==> phase is Receiving && e == ProvisionEvent::Received(0),
        phase == (Phase::Cleaning { failed: true }) ==> next_phase(phase, e) == Phase::Finished,
{
}

/// `a + b`, or `u64::MAX` when that does not fit.
pub open spec fn sat_add(a: u64, b: u64) -> u64 {
    if a as int + b as int > u64::MAX as int { u64::MAX } else { (a + b) as u64 }
}

/// Where the archive is downloaded to.
pub open spec fn archive_path(os: Os, arch: Arch, config_dir: Seq<char>) -> Seq<char> {
    join(os, config_dir, archive_name(node_version(), os, arch))
}

/// The meaning of a `ProvisionAction`, over path texts.
pub enum ActionView {
    Request { url: Seq<char> },
    CreateArchive { path: Seq<char> },
    CopyChunk,
    ReplaceDir { path: Seq<char> },
    Unpack { archive: Seq<char>, dest: Seq<char>, zip: bool },
    RemoveArchive { path: Seq<char> },
    SaveConfig { portable: bool, node_path: Seq<char> },
    Finish(Result<Seq<char>, Seq<char>>),
}

impl View for ProvisionAction {
    type V = ActionView;

    open spec fn view(&self) -> ActionView {
        match self {
            ProvisionAction::Request { url } => ActionView::Request { url: url@ },
            ProvisionAction::CreateArchive { path } => ActionView::CreateArchive { path: path@ },
            ProvisionAction::CopyChunk => ActionView::CopyChunk,
            ProvisionAction::ReplaceDir { path } => ActionView::ReplaceDir { path: path@ },
            ProvisionAction::Unpack { archive, dest, zip } => ActionView::Unpack {
                archive: archive@,
                dest: dest@,
                zip: *zip,
            },
            ProvisionAction::RemoveArchive { path } => ActionView::RemoveArchive { path: path@ },
            ProvisionAction::SaveConfig(c) => ActionView::SaveConfig { portable: c.portable, node_path: c.node_path@ },
            ProvisionAction::Finish(Ok(b)) => ActionView::Finish(Ok(b@)),
            ProvisionAction::Finish(Err(m)) => ActionView::Finish(Err(m@)),
        }
    }
}

/// A notification as step, status, percentage and message text.
pub open spec fn notice_view(n: Option<ProgressEvent>) -> Option<(Step, Status, Option<u32>, Seq<char>)> {
    match n {
        Some(e) => Some((e.step, e.status, e.percent, e.message@)),
        None => None,
    }
}

pub open spec fn fail_view(msg: Seq<char>) -> ActionView {
    ActionView::Finish(Err(msg))
}

impl Provisioner {
    /// A run that is cleaning up after a failed unpack holds that failure.
    pub open spec fn wf(&self) -> bool {
        self.phase == (Phase::Cleaning { failed: true }) ==> self.failure is Some
    }

    pub open spec fn fixed_as(&self, o: &Provisioner) -> bool {
        self.os == o.os && self.arch == o.arch && self.config_dir@ == o.config_dir@
    }

    /// A run that has not started.
    pub fn new(os: Os, arch: Arch, config_dir: String) -> (r: Provisioner)
        ensures
            r.os == os,
            r.arch == arch,
            r.config_dir@ == config_dir@,
            r.phase == Phase::Start,
            r.failure is None,
            r.wf(),
    {
        Provisioner { os, arch, config_dir, phase: Phase::Start, failure: None }
    }

    /// Whether the run waits for `e` now.
    pub fn expects_event(&self, e: &ProvisionEvent) -> (r: bool)
        ensures
            r == expects(self.phase, *e),
    {
        match self.phase {
            Phase::Start => matches!(e, ProvisionEvent::Begin),
            Phase::Requesting => matches!(e, ProvisionEvent::Response { .. }) || matches!(e, ProvisionEvent::Failed(_)),
            Phase::Creating { .. } => matches!(e, ProvisionEvent::Completed) || matches!(e, ProvisionEvent::Failed(_)),
            Phase::Receiving { .. } => matches!(e, ProvisionEvent::Received(_))
                || matches!(e, ProvisionEvent::ReadFailed(_)) || matches!(e, ProvisionEvent::WriteFailed(_)),
            Phase::Replacing => matches!(e, ProvisionEvent::Completed) || matches!(e, ProvisionEvent::Failed(_)),
            Phase::Unpacking => matches!(e, ProvisionEvent::Completed) || matches!(e, ProvisionEvent::Failed(_)),
            Phase::Cleaning { .. } => matches!(e, ProvisionEvent::Completed),
            Phase::Saving => matches!(e, ProvisionEvent::Completed),
            Phase::Finished => false,
        }
    }

    fn fail(&mut self, prefix: &str, detail: &str) -> (r: ProvisionStep)
        ensures
            final(self).fixed_as(old(self)),
            final(self).phase == Phase::Finished,
            final(self).failure == old(self).failure,
            r.notify is None,
            r.action@ == fail_view(prefix@ + detail@),
    {
        let mut m = String::from_str(prefix);
        m.append(detail);
        self.phase = Phase::Finished;
        ProvisionStep { notify: None, action: ProvisionAction::Finish(Err(m)) }
    }

    /// Takes the outcome of the last action and gives the next one.
    pub fn step(&mut self, e: ProvisionEvent) -> (r: ProvisionStep)
        requires
            old(self).wf(),
            expects(old(self).phase, e),
        ensures
            final(self).wf(),
            final(self).fixed_as(old(self)),
            final(self).phase == next_phase(old(self).phase, e),
            ({
                let os = old(self).os;
                let arch = old(self).arch;
                let dir = old(self).config_dir@;
                let ph = final(self).phase;
                match (old(self).phase, e) {
                    (Phase::Start, ProvisionEvent::Begin) => ph == Phase::Requesting
                        && notice_view(r.notify) == Some((Step::DownloadNode, Status::Started, None::<u32>, started_message(Step::DownloadNode)))
                        && r.action@ == (ActionView::Request { url: archive_url(node_version(), os, arch) }),
                    (Phase::Requesting, ProvisionEvent::Failed(x)) => ph == Phase::Finished && r.notify is None
                        && r.action@ == fail_view("Download failed: "@ + x@),
                    (Phase::Requesting, ProvisionEvent::Response { status, status_text, content_length }) =>
                        if 200 <= status && status <= 299 {
                            ph == Phase::Creating { total: match content_length { Some(t) => t, None => 0 } }
                                && r.notify is None
                                && r.action@ == (ActionView::CreateArchive { path: archive_path(os, arch, dir) })
                        } else {
                            ph == Phase::Finished && r.notify is None
                                && r.action@ == fail_view("Download failed with status: "@ + status_text@)
                        },
                    (Phase::Creating { total }, ProvisionEvent::Completed) =>
                        ph == (Phase::Receiving { downloaded: 0, total }) && r.notify is None
                            && r.action@ == ActionView::CopyChunk,
                    (Phase::Creating { .. }, ProvisionEvent::Failed(x)) => ph == Phase::Finished
                        && r.notify is None && r.action@ == fail_view("Cannot create file: "@ + x@),
                    (Phase::Receiving { downloaded, total }, ProvisionEvent::Received(n)) =>
                        if n == 0 {
                            ph == Phase::Replacing
                                && notice_view(r.notify) == Some((Step::DownloadNode, Status::Extracting, None::<u32>, "Extracting Node.js..."@))
                                && r.action@ == (ActionView::ReplaceDir { path: portable_node_dir(os, dir) })
                        } else {
                            let d = sat_add(downloaded, n);
                            ph == (Phase::Receiving { downloaded: d, total }) && r.action@ == ActionView::CopyChunk
                                && match percent_spec(d, total) {
                                    None => r.notify is None,
                                    Some(p) => notice_view(r.notify) == Some((Step::DownloadNode, Status::Progress, Some(p),
                                        "Downloading Node.js... "@ + decimal(p as nat) + "%"@)),
                                }
                        },
                    (Phase::Receiving { .. }, ProvisionEvent::ReadFailed(x)) => ph == Phase::Finished
                        && r.notify is None && r.action@ == fail_view("Read error: "@ + x@),
                    (Phase::Receiving { .. }, ProvisionEvent::WriteFailed(x)) => ph == Phase::Finished
                        && r.notify is None && r.action@ == fail_view("Write error: "@ + x@),
                    (Phase::Replacing, ProvisionEvent::Completed) => ph == Phase::Unpacking && r.notify is None
                        && r.action@ == (ActionView::Unpack {
                            archive: archive_path(os, arch, dir),
                            dest: portable_node_dir(os, dir),
                            zip: os == Os::Windows,
                        }),
                    (Phase::Replacing, ProvisionEvent::Failed(x)) => ph == Phase::Finished
                        && r.notify is None && r.action@ == fail_view("Cannot create node dir: "@ + x@),
                    (Phase::Unpacking, ProvisionEvent::Completed) => ph == (Phase::Cleaning { failed: false })
                        && r.notify is None
                        && r.action@ == (ActionView::RemoveArchive { path: archive_path(os, arch, dir) }),
                    (Phase::Unpacking, ProvisionEvent::Failed(x)) => ph == (Phase::Cleaning { failed: true })
                        && opt_view(final(self).failure) == Some(x@)
                        && r.notify is None
                        && r.action@ == (ActionView::RemoveArchive { path: archive_path(os, arch, dir) }),
                    (Phase::Cleaning { failed }, ProvisionEvent::Completed) =>
                        if failed {
                            ph == Phase::Finished && r.notify is None
                                && r.action@ == fail_view(opt_view(old(self).failure)->0)
                        } else {
                            ph == Phase::Saving && r.notify is None
                                && r.action@ == (ActionView::SaveConfig { portable: true, node_path: portable_node_dir(os, dir) })
                        },
                    (Phase::Saving, ProvisionEvent::Completed) => ph == Phase::Finished
                        && notice_view(r.notify) == Some((Step::DownloadNode, Status::Done, None::<u32>, done_message(Step::DownloadNode)))
                        && r.action@ == ActionView::Finish(Ok(node_binary(os, dir, true))),
                    _ => false,
                }
            }),
    {
        let os = self.os;
        let arch = self.arch;
        match self.phase {
            Phase::Start => {
                let (url, _) = get_node_download_url(os, arch);
                self.phase = Phase::Requesting;
                ProvisionStep { notify: Some(started_event(Step::DownloadNode)), action: ProvisionAction::Request { url } }
            },
            Phase::Requesting => match e {
                ProvisionEvent::Response { status, status_text, content_length } => {
                    if 200 <= status && status <= 299 {
                        let total = match content_length { Some(t) => t, None => 0 };
                        let (_, name) = get_node_download_url(os, arch);
                        let path = path_join(os, self.config_dir.as_str(), name.as_str());
                        self.phase = Phase::Creating { total };
                        ProvisionStep { notify: None, action: ProvisionAction::CreateArchive { path } }
                    } else {
                        self.fail("Download failed with status: ", status_text.as_str())
                    }
                },
                ProvisionEvent::Failed(x) => self.fail("Download failed: ", x.as_str()),
                _ => { assert(false); self.fail("", "") },
            },
            Phase::Creating { total } => match e {
                ProvisionEvent::Completed => {
                    self.phase = Phase::Receiving { downloaded: 0, total };
                    ProvisionStep { notify: None, action: ProvisionAction::CopyChunk }
                },
                ProvisionEvent::Failed(x) => self.fail("Cannot create file: ", x.as_str()),
                _ => { assert(false); self.fail("", "") },
            },
            Phase::Receiving { downloaded, total } => match e {
                ProvisionEvent::Received(n) => {
                    if n == 0 {
                        self.phase = Phase::Replacing;
                        let path = get_portable_node_dir(os, self.config_dir.as_str());
                        ProvisionStep { notify: Some(extracting_event()), action: ProvisionAction::ReplaceDir { path } }
                    } else {
                        let d = if downloaded > u64::MAX - n { u64::MAX } else { downloaded + n };
                        self.phase = Phase::Receiving { downloaded: d, total };
                        ProvisionStep { notify: download_progress_event(d, total), action: ProvisionAction::CopyChunk }
                    }
                },
                ProvisionEvent::ReadFailed(x) => self.fail("Read error: ", x.as_str()),
                ProvisionEvent::WriteFailed(x) => self.fail("Write error: ", x.as_str()),
                _ => { assert(false); self.fail("", "") },
            },
            Phase::Replacing => match e {
                ProvisionEvent::Completed => {
                    let (_, name) = get_node_download_url(os, arch);
                    let archive = path_join(os, self.config_dir.as_str(), name.as_str());
                    let dest = get_portable_node_dir(os, self.config_dir.as_str());
                    self.phase = Phase::Unpacking;
                    ProvisionStep {
                        notify: None,
                        action: ProvisionAction::Unpack { archive, dest, zip: os == Os::Windows },
                    }
                },
                ProvisionEvent::Failed(x) => self.fail("Cannot create node dir: ", x.as_str()),
                _ => { assert(false); self.fail("", "") },
            },
            Phase::Unpacking => {
                let (_, name) = get_node_download_url(os, arch);
                let path = path_join(os, self.config_dir.as_str(), name.as_str());
                match e {
                    ProvisionEvent::Completed => {
                        self.phase = Phase::Cleaning { failed: false };
                    },
                    ProvisionEvent::Failed(x) => {
                        self.phase = Phase::Cleaning { failed: true };
                        self.failure = Some(x);
                    },
                    _ => { assert(false); },
                }
                ProvisionStep { notify: None, action: ProvisionAction::RemoveArchive { path } }
            },
            Phase::Cleaning { failed } => {
                if failed {
                    self.phase = Phase::Finished;
                    let m = match &self.failure {
                        Some(f) => f.clone(),
                        None => String::new(),
                    };
                    ProvisionStep { notify: None, action: ProvisionAction::Finish(Err(m)) }
                } else {
                    self.phase = Phase::Saving;
                    let dir = get_portable_node_dir(os, self.config_dir.as_str());
                    ProvisionStep { notify: None, action: ProvisionAction::SaveConfig(NodeConfig::provisioned(dir)) }
                }
            },
            Phase::Saving => {
                self.phase = Phase::Finished;
                let b = get_node_binary(os, self.config_dir.as_str(), true);
                ProvisionStep { notify: Some(done_event(Step::DownloadNode)), action: ProvisionAction::Finish(Ok(b)) }
            },
            Phase::Finished => {
                assert(false);
                self.fail("", "")
            },
        }
    }
}

} // verus!
