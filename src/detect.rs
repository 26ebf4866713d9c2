//! Whether the agent is installed. The detector is a step function: given
//! what has been observed so far, it names the next thing to look at, or the
//! answer. The cheapest checks come first; a confirmed install is written
//! down in a marker file so that later checks stop at the marker.
use vstd::prelude::*;

verus! {

/// `App` when the agent is reachable, `Installer` when it must be set up.
#[derive(Clone, Copy, PartialEq, Eq, Structural, Debug)]
pub enum InstallState {
    App,
    Installer,
}

impl InstallState {
    /// The state's name as the user interface knows it.
    pub fn name(&self) -> (r: &'static str)
        ensures
            r@ == (if *self == InstallState::App { "app"@ } else { "installer"@ }),
    {
        match self {
            InstallState::App => "app",
            InstallState::Installer => "installer",
        }
    }
}

/// The next step of detection.
#[derive(Clone, Copy, PartialEq, Eq, Structural, Debug)]
pub enum DetectAction {
    /// Does the marker file exist?
    CheckMarker,
    /// Does running the agent's `--version` from the search path succeed?
    ProbePathCli,
    /// Does the runtime configuration say the private runtime is in use?
    ReadRuntimeConfig,
    /// Does the agent's command exist inside the private runtime?
    CheckPortableCli,
    /// Write the marker file (best effort; the answer is ignored).
    WriteMarker,
    /// Detection is over.
    Done(InstallState),
}

/// What detection has observed so far.
pub struct DetectFacts {
    pub marker_exists: Option<bool>,
    pub path_cli_ok: Option<bool>,
    pub portable: Option<bool>,
    pub portable_cli_exists: Option<bool>,
    pub marker_written: bool,
}

/// The next step, given the facts.
pub open spec fn next_action(f: DetectFacts) -> DetectAction {
    match f.marker_exists {
        None => DetectAction::CheckMarker,
        Some(true) => DetectAction::Done(InstallState::App),
        Some(false) => if f.marker_written {
            DetectAction::Done(InstallState::App)
        } else {
            match f.path_cli_ok {
                None => DetectAction::ProbePathCli,
                Some(true) => DetectAction::WriteMarker,
                Some(false) => match f.portable {
                    None => DetectAction::ReadRuntimeConfig,
                    Some(false) => DetectAction::Done(InstallState::Installer),
                    Some(true) => match f.portable_cli_exists {
                        None => DetectAction::CheckPortableCli,
                        Some(true) => DetectAction::WriteMarker,
                        Some(false) => DetectAction::Done(InstallState::Installer),
                    },
                },
            }
        },
    }
}

/// The facts once `answer` came back for step `a`.
pub open spec fn record_spec(f: DetectFacts, a: DetectAction, answer: bool) -> DetectFacts {
    match a {
        DetectAction::CheckMarker => DetectFacts { marker_exists: Some(answer), ..f },
        DetectAction::ProbePathCli => DetectFacts { path_cli_ok: Some(answer), ..f },
        DetectAction::ReadRuntimeConfig => DetectFacts { portable: Some(answer), ..f },
        DetectAction::CheckPortableCli => DetectFacts { portable_cli_exists: Some(answer), ..f },
        DetectAction::WriteMarker => DetectFacts { marker_written: true, ..f },
        DetectAction::Done(_) => f,
    }
}

impl DetectFacts {
    /// Nothing observed yet.
    pub fn new() -> (r: DetectFacts)
        ensures
            r == initial_facts(),
    {
        DetectFacts {
            marker_exists: None,
            path_cli_ok: None,
            portable: None,
            portable_cli_exists: None,
            marker_written: false,
        }
    }

    /// Records the answer to step `a`.
    pub fn record(&mut self, a: DetectAction, answer: bool)
        ensures
            *final(self) == record_spec(*old(self), a, answer),
    {
        match a {
            DetectAction::CheckMarker => self.marker_exists = Some(answer),
            DetectAction::ProbePathCli => self.path_cli_ok = Some(answer),
            DetectAction::ReadRuntimeConfig => self.portable = Some(answer),
            DetectAction::CheckPortableCli => self.portable_cli_exists = Some(answer),
            DetectAction::WriteMarker => self.marker_written = true,
            DetectAction::Done(_) => {},
        }
    }
}

/// The next step of detection.
pub fn detect_next(f: &DetectFacts) -> (r: DetectAction)
    ensures
        r == next_action(*f),
{
    match f.marker_exists {
        None => DetectAction::CheckMarker,
        Some(true) => DetectAction::Done(InstallState::App),
        Some(false) => if f.marker_written {
            DetectAction::Done(InstallState::App)
        } else {
            match f.path_cli_ok {
                None => DetectAction::ProbePathCli,
                Some(true) => DetectAction::WriteMarker,
                Some(false) => match f.portable {
                    None => DetectAction::ReadRuntimeConfig,
                    Some(false) => DetectAction::Done(InstallState::Installer),
                    Some(true) => match f.portable_cli_exists {
                        None => DetectAction::CheckPortableCli,
                        Some(true) => DetectAction::WriteMarker,
                        Some(false) => DetectAction::Done(InstallState::Installer),
                    },
                },
            }
        },
    }
}

pub open spec fn initial_facts() -> DetectFacts {
    DetectFacts {
        marker_exists: None,
        path_cli_ok: None,
        portable: None,
        portable_cli_exists: None,
        marker_written: false,
    }
}

/// The state of the machine that detection looks at.
pub struct World {
    pub marker: bool,
    pub path_cli_ok: bool,
    pub portable: bool,
    pub portable_cli_exists: bool,
}

/// The answer the machine gives to step `a`.
pub open spec fn answer_of(w: World, a: DetectAction) -> bool {
    match a {
        DetectAction::CheckMarker => w.marker,
        DetectAction::ProbePathCli => w.path_cli_ok,
        DetectAction::ReadRuntimeConfig => w.portable,
        DetectAction::CheckPortableCli => w.portable_cli_exists,
        _ => true,
    }
}

/// The steps detection takes on machine `w` from facts `f`, at most `fuel`
/// of them, ending with `Done` when it is reached.
pub open spec fn trace(w: World, f: DetectFacts, fuel: nat) -> Seq<DetectAction>
    decreases fuel,
{
    if fuel == 0 {
        Seq::empty()
    } else {
        let a = next_action(f);
        if a is Done {
            seq![a]
        } else {
            seq![a] + trace(w, record_spec(f, a, answer_of(w, a)), (fuel - 1) as nat)
        }
    }
}

/// The installed state of machine `w`: a marker, the agent on the search
/// path, or the agent inside the private runtime in use.
pub open spec fn detect_outcome(w: World) -> InstallState {
    if w.marker || w.path_cli_ok || (w.portable && w.portable_cli_exists) {
        InstallState::App
    } else {
        InstallState::Installer
    }
}

/// Detection ends within six steps with the machine's installed state. With
/// a marker present it answers `App` after looking at the marker alone, so
/// no process is run; without one, an `App` answer writes the marker first.
pub proof fn lemma_detect(w: World)
    ensures
        trace(w, initial_facts(), 6).len() > 0,
        trace(w, initial_facts(), 6).last() == DetectAction::Done(detect_outcome(w)),
        w.marker ==> trace(w, initial_facts(), 6)
            == seq![DetectAction::CheckMarker, DetectAction::Done(InstallState::App)],
        !w.marker && detect_outcome(w) == InstallState::App ==> trace(w, initial_facts(), 6).contains(
            DetectAction::WriteMarker,
        ),
{
    reveal_with_fuel(trace, 7);
    let t = trace(w, initial_facts(), 6);
    if !w.marker && detect_outcome(w) == InstallState::App {
        if w.path_cli_ok {
            assert(t[2] == DetectAction::WriteMarker);
        } else {
            assert(t[4] == DetectAction::WriteMarker);
        }
    }
}

/// On a fresh machine (no marker, no agent on the search path, no private
/// runtime) detection answers `Installer`; once the private runtime is in
/// use and holds the agent, it answers `App` and writes the marker; from
/// then on the marker alone answers `App`.
pub proof fn lemma_fresh_then_provisioned(path_cli_ok: bool)
    ensures
        trace(World { marker: false, path_cli_ok: false, portable: false, portable_cli_exists: false },
            initial_facts(), 6).last() == DetectAction::Done(InstallState::Installer),
        trace(World { marker: false, path_cli_ok: false, portable: true, portable_cli_exists: true },
            initial_facts(), 6).last() == DetectAction::Done(InstallState::App),
        trace(World { marker: false, path_cli_ok: false, portable: true, portable_cli_exists: true },
            initial_facts(), 6).contains(DetectAction::WriteMarker),
        trace(World { marker: true, path_cli_ok, portable: true, portable_cli_exists: true },
            initial_facts(), 6) == seq![DetectAction::CheckMarker, DetectAction::Done(InstallState::App)],
{
    lemma_detect(World { marker: false, path_cli_ok: false, portable: false, portable_cli_exists: false });
    lemma_detect(World { marker: false, path_cli_ok: false, portable: true, portable_cli_exists: true });
    lemma_detect(World { marker: true, path_cli_ok, portable: true, portable_cli_exists: true });
}

} // verus!
