use vstd::prelude::*;

use crate::path::StylePath;
use crate::watch::ChangeEvent;

verus! {

/// Whether a load of the stylesheet is under way.
#[derive(Clone, Copy, Debug, PartialEq, Eq, Structural)]
pub enum Phase {
    Idle,
    Reloading,
}

/// The stylesheet could not be read.
pub struct ReadError {
    pub message: String,
}

/// The style sink rejected the stylesheet.
pub struct ApplyError {
    pub message: String,
}

/// What the controller is told: a load was asked for, or an outside step finished.
pub enum Input {
    /// Load the stylesheet for the first time.
    Initial,
    /// The watch saw the stylesheet's content change.
    Changed(ChangeEvent),
    /// The stylesheet was read, or reading it failed.
    Read(Result<Vec<u8>, ReadError>),
    /// The style sink took the bytes, or rejected them.
    Applied(Result<(), ApplyError>),
}

/// What the controller reports when a load ends.
pub enum Notice {
    /// The bytes are now the active style.
    Applied,
    /// The stylesheet could not be read; the previous style stays active.
    ReadFailed(ReadError),
    /// The sink rejected the stylesheet; the previous style stays active.
    ApplyFailed(ApplyError),
}

/// How loudly a notice is to be logged.
#[derive(Clone, Copy, Debug, PartialEq, Eq, Structural)]
pub enum Level {
    Debug,
    Error,
}

/// The first hint given with a failed load.
pub const HINT_CHECK_ERRORS: &'static str = "Check the CSS file for errors";

/// The second hint given with a failed load.
pub const HINT_SUBSET: &'static str = "GTK CSS uses a subset of the full CSS spec and many properties are not available. Ensure you are not using any unsupported property.";

impl Notice {
    /// A load that took effect is logged at debug level, a failed one as an error.
    pub fn level(&self) -> (r: Level)
        ensures
            r == (match self {
                Notice::Applied => Level::Debug,
                _ => Level::Error,
            }),
    {
        match self {
            Notice::Applied => Level::Debug,
            _ => Level::Error,
        }
    }

    /// What the user can do about a failed load: none for a load that took effect.
    pub fn hints(&self) -> (r: Vec<String>)
        ensures
            self is Applied ==> r@.len() == 0,
            !(self is Applied) ==> r@.len() == 2 && r@[0]@ == HINT_CHECK_ERRORS@ && r@[1]@
                == HINT_SUBSET@,
    {
        let mut r: Vec<String> = Vec::new();
        match self {
            Notice::Applied => {},
            _ => {
                r.push(HINT_CHECK_ERRORS.to_owned());
                r.push(HINT_SUBSET.to_owned());
            },
        }
        r
    }
}

/// What the caller is to do next.
pub enum Action {
    /// Read the stylesheet at this path and answer with `Input::Read`.
    ReadFile(StylePath),
    /// Hand these bytes to the style sink and answer with `Input::Applied`.
    Apply(Vec<u8>),
    /// The load is over: report the notice.
    Report(Notice),
    /// The input does not fit the current phase, or names another file: nothing to do.
    Ignore,
}

/// An input as a value: paths, bytes and messages as sequences.
pub enum InputModel {
    Initial,
    Changed(Seq<Seq<char>>),
    Read(Result<Seq<u8>, Seq<char>>),
    Applied(Result<(), Seq<char>>),
}

/// A notice as a value.
pub enum NoticeModel {
    Applied,
    ReadFailed(Seq<char>),
    ApplyFailed(Seq<char>),
}

/// An action as a value.
pub enum ActionModel {
    ReadFile(Seq<Seq<char>>),
    Apply(Seq<u8>),
    Report(NoticeModel),
    Ignore,
}

/// The controller as a value: the stylesheet's path, the phase, the bytes handed to
/// the sink and not yet answered, and the bytes of the style that is active.
pub struct ControllerState {
    pub style: Seq<Seq<char>>,
    pub phase: Phase,
    pub pending: Option<Seq<u8>>,
    pub active: Option<Seq<u8>>,
}

impl View for Input {
    type V = InputModel;

    open spec fn view(&self) -> InputModel {
        match self {
            Input::Initial => InputModel::Initial,
            Input::Changed(e) => InputModel::Changed(e.path@),
            Input::Read(Ok(b)) => InputModel::Read(Ok(b@)),
            Input::Read(Err(e)) => InputModel::Read(Err(e.message@)),
            Input::Applied(Ok(())) => InputModel::Applied(Ok(())),
            Input::Applied(Err(e)) => InputModel::Applied(Err(e.message@)),
        }
    }
}

impl View for Notice {
    type V = NoticeModel;

    open spec fn view(&self) -> NoticeModel {
        match self {
            Notice::Applied => NoticeModel::Applied,
            Notice::ReadFailed(e) => NoticeModel::ReadFailed(e.message@),
            Notice::ApplyFailed(e) => NoticeModel::ApplyFailed(e.message@),
        }
    }
}

impl View for Action {
    type V = ActionModel;

    open spec fn view(&self) -> ActionModel {
        match self {
            Action::ReadFile(p) => ActionModel::ReadFile(p@),
            Action::Apply(b) => ActionModel::Apply(b@),
            Action::Report(n) => ActionModel::Report(n@),
            Action::Ignore => ActionModel::Ignore,
        }
    }
}

/// Start a load: read the stylesheet.
pub open spec fn start_load(s: ControllerState) -> (ControllerState, ActionModel) {
    (
        ControllerState { style: s.style, phase: Phase::Reloading, pending: None, active: s.active },
        ActionModel::ReadFile(s.style),
    )
}

/// The controller's rule: the state and action that follow input `i` in state `s`.
///
/// A load runs `ReadFile`, then `Apply`, then `Report`. Only a sink that accepted the
/// bytes changes the active style; a failed read or a rejected stylesheet leaves it as
/// it was, and the controller goes back to `Idle` either way.
pub open spec fn next(s: ControllerState, i: InputModel) -> (ControllerState, ActionModel) {
    match i {
        InputModel::Initial => if s.phase == Phase::Idle {
            start_load(s)
        } else {
            (s, ActionModel::Ignore)
        },
        InputModel::Changed(p) => if s.phase == Phase::Idle && p == s.style {
            start_load(s)
        } else {
            (s, ActionModel::Ignore)
        },
        InputModel::Read(r) => if s.phase == Phase::Reloading && s.pending is None {
            match r {
                Ok(b) => (
                    ControllerState {
                        style: s.style,
                        phase: Phase::Reloading,
                        pending: Some(b),
                        active: s.active,
                    },
                    ActionModel::Apply(b),
                ),
                Err(m) => (
                    ControllerState { style: s.style, phase: Phase::Idle, pending: None, active: s.active },
                    ActionModel::Report(NoticeModel::ReadFailed(m)),
                ),
            }
        } else {
            (s, ActionModel::Ignore)
        },
        InputModel::Applied(r) => if s.phase == Phase::Reloading && s.pending is Some {
            match r {
                Ok(_) => (
                    ControllerState { style: s.style, phase: Phase::Idle, pending: None, active: s.pending },
                    ActionModel::Report(NoticeModel::Applied),
                ),
                Err(m) => (
                    ControllerState { style: s.style, phase: Phase::Idle, pending: None, active: s.active },
                    ActionModel::Report(NoticeModel::ApplyFailed(m)),
                ),
            }
        } else {
            (s, ActionModel::Ignore)
        },
    }
}

/// A change event for a path other than the stylesheet's is ignored: the state stays as
/// it is and nothing is read or applied.
pub proof fn lemma_other_path_ignored(s: ControllerState, p: Seq<Seq<char>>)
    requires
        p != s.style,
    ensures
        next(s, InputModel::Changed(p)) == (s, ActionModel::Ignore),
{
}

/// What happened in one reload: what reading the stylesheet gave and, where it was
/// read, what the sink answered.
pub struct Attempt {
    pub read: Result<Seq<u8>, Seq<char>>,
    pub applied: Result<(), Seq<char>>,
}

/// Whether the attempt put its bytes in effect.
pub open spec fn took_effect(a: Attempt) -> bool {
    a.read is Ok && a.applied is Ok
}

/// One reload from state `s`, set off by a change of the stylesheet: the state after
/// it, and the actions it asked for.
pub open spec fn reload(s: ControllerState, a: Attempt) -> (ControllerState, Seq<ActionModel>) {
    let (s1, a1) = next(s, InputModel::Changed(s.style));
    let (s2, a2) = next(s1, InputModel::Read(a.read));
    if a.read is Ok {
        let (s3, a3) = next(s2, InputModel::Applied(a.applied));
        (s3, seq![a1, a2, a3])
    } else {
        (s2, seq![a1, a2])
    }
}

/// The state after the reloads of `attempts`, one after the other, from `s`.
pub open spec fn reload_all(s: ControllerState, attempts: Seq<Attempt>) -> ControllerState
    decreases attempts.len(),
{
    if attempts.len() == 0 {
        s
    } else {
        reload(reload_all(s, attempts.drop_last()), attempts.last()).0
    }
}

/// The bytes of the last attempt that took effect, or `initial` where none did.
pub open spec fn latest_effective(initial: Option<Seq<u8>>, attempts: Seq<Attempt>) -> Option<
    Seq<u8>,
>
    decreases attempts.len(),
{
    if attempts.len() == 0 {
        initial
    } else if took_effect(attempts.last()) {
        Some(attempts.last().read->Ok_0)
    } else {
        latest_effective(initial, attempts.drop_last())
    }
}

/// A reload from an idle controller reads the stylesheet, hands what it read to the
/// sink, and reports how that went. It ends idle. The style in effect becomes the
/// bytes read where the sink accepted them; where reading failed or the sink rejected
/// them, the style that was in effect stays in effect.
pub proof fn lemma_reload(s: ControllerState, a: Attempt)
    requires
        s.phase == Phase::Idle,
    ensures
        ({
            let (t, acts) = reload(s, a);
            &&& t.style == s.style
            &&& t.phase == Phase::Idle
            &&& t.pending is None
            &&& t.active == if took_effect(a) {
                Some(a.read->Ok_0)
            } else {
                s.active
            }
            &&& acts[0] == ActionModel::ReadFile(s.style)
            &&& match a.read {
                Ok(b) => acts.len() == 3 && acts[1] == ActionModel::Apply(b) && acts[2]
                    == ActionModel::Report(
                    match a.applied {
                        Ok(_) => NoticeModel::Applied,
                        Err(m) => NoticeModel::ApplyFailed(m),
                    },
                ),
                Err(m) => acts.len() == 2 && acts[1] == ActionModel::Report(
                    NoticeModel::ReadFailed(m),
                ),
            }
        }),
{
}

/// A failed reload leaves the style that was in effect in effect, and the controller
/// idle, ready for the next change.
pub proof fn lemma_failed_reload_keeps_style(s: ControllerState, a: Attempt)
    requires
        s.phase == Phase::Idle,
        !took_effect(a),
    ensures
        reload(s, a).0.active == s.active,
        reload(s, a).0.phase == Phase::Idle,
{
    lemma_reload(s, a);
}

/// After any run of reloads from an idle controller, the style in effect is the
/// content of the last reload that the sink accepted, or the one that was in effect
/// before where it accepted none; and the controller is idle again.
pub proof fn lemma_latest_content_in_effect(s: ControllerState, attempts: Seq<Attempt>)
    requires
        s.phase == Phase::Idle,
    ensures
        reload_all(s, attempts).active == latest_effective(s.active, attempts),
        reload_all(s, attempts).phase == Phase::Idle,
        reload_all(s, attempts).style == s.style,
    decreases attempts.len(),
{
    if attempts.len() > 0 {
        lemma_latest_content_in_effect(s, attempts.drop_last());
        lemma_reload(reload_all(s, attempts.drop_last()), attempts.last());
    }
}

/// Two reloads, one after the other: where the second took effect, its content is in
/// effect; where it did not, the first one's is if that took effect.
pub proof fn lemma_later_reload_wins(s: ControllerState, a1: Attempt, a2: Attempt)
    requires
        s.phase == Phase::Idle,
    ensures
        took_effect(a2) ==> reload(reload(s, a1).0, a2).0.active == Some(a2.read->Ok_0),
        !took_effect(a2) && took_effect(a1) ==> reload(reload(s, a1).0, a2).0.active == Some(
            a1.read->Ok_0,
        ),
{
    lemma_reload(s, a1);
    lemma_reload(reload(s, a1).0, a2);
}

/// Handling the same change twice is safe: the second reload asks for the same
/// actions as the first, the same bytes handed to the sink and the same report, and
/// leaves the controller as the first one did.
pub proof fn lemma_repeated_reload(s: ControllerState, a: Attempt)
    requires
        s.phase == Phase::Idle,
    ensures
        reload(reload(s, a).0, a).1 == reload(s, a).1,
        reload(reload(s, a).0, a).0 == reload(s, a).0,
{
    lemma_reload(s, a);
    lemma_reload(reload(s, a).0, a);
    assert(reload(reload(s, a).0, a).1 =~= reload(s, a).1);
}

/// Drives loads of one stylesheet against a style sink that the caller owns.
///
/// The caller performs each action and hands back its outcome; the controller keeps
/// the bytes of the style that the sink last accepted.
pub struct ReloadController {
    style: StylePath,
    phase: Phase,
    pending: Option<Vec<u8>>,
    active: Option<Vec<u8>>,
}

impl View for ReloadController {
    type V = ControllerState;

    closed spec fn view(&self) -> ControllerState {
        ControllerState {
            style: self.style@,
            phase: self.phase,
            pending: match self.pending {
                Some(b) => Some(b@),
                None => None,
            },
            active: match self.active {
                Some(b) => Some(b@),
                None => None,
            },
        }
    }
}

/// Copies bytes one by one.
fn copy_bytes(b: &Vec<u8>) -> (r: Vec<u8>)
    ensures
        r@ == b@,
{
    let n = b.len();
    let mut r: Vec<u8> = Vec::new();
    let mut i: usize = 0;
    while i < n
        invariant
            n == b.len(),
            0 <= i <= n,
            r@ == b@.subrange(0, i as int),
        decreases n - i,
    {
        r.push(b[i]);
        i = i + 1;
        proof {
            assert(r@ =~= b@.subrange(0, i as int));
        }
    }
    proof {
        assert(b@.subrange(0, n as int) =~= b@);
    }
    r
}

impl ReloadController {
    /// A controller for the stylesheet at `style`, idle, with no style applied yet.
    pub fn new(style: StylePath) -> (r: ReloadController)
        ensures
            r@ == (ControllerState { style: style@, phase: Phase::Idle, pending: None, active: None }),
    {
        ReloadController { style, phase: Phase::Idle, pending: None, active: None }
    }

    /// Starts a load: the next step is reading the stylesheet.
    fn begin_load(&mut self) -> (r: Action)
        ensures
            (final(self)@, r@) == start_load(old(self)@),
    {
        self.phase = Phase::Reloading;
        self.pending = None;
        Action::ReadFile(self.style.copied())
    }

    /// Takes one input and says what to do next, by the rule of `next`.
    pub fn step(&mut self, input: Input) -> (r: Action)
        ensures
            (final(self)@, r@) == next(old(self)@, input@),
    {
        match input {
            Input::Initial => {
                if self.phase == Phase::Idle {
                    self.begin_load()
                } else {
                    Action::Ignore
                }
            },
            Input::Changed(e) => {
                if self.phase == Phase::Idle && e.path.same_path(&self.style) {
                    self.begin_load()
                } else {
                    Action::Ignore
                }
            },
            Input::Read(r) => {
                if self.phase != Phase::Reloading || self.pending.is_some() {
                    return Action::Ignore;
                }
                match r {
                    Ok(b) => {
                        let a = copy_bytes(&b);
                        self.pending = Some(b);
                        Action::Apply(a)
                    },
                    Err(e) => {
                        self.phase = Phase::Idle;
                        Action::Report(Notice::ReadFailed(e))
                    },
                }
            },
            Input::Applied(r) => {
                if self.phase != Phase::Reloading || self.pending.is_none() {
                    return Action::Ignore;
                }
                let p = self.pending.take();
                self.phase = Phase::Idle;
                match r {
                    Ok(()) => {
                        self.active = p;
                        Action::Report(Notice::Applied)
                    },
                    Err(e) => Action::Report(Notice::ApplyFailed(e)),
                }
            },
        }
    }

    /// The path of the stylesheet this controller loads.
    pub fn style_path(&self) -> (r: &StylePath)
        ensures
            r@ == self@.style,
    {
        &self.style
    }

    /// The phase the controller is in.
    pub fn phase(&self) -> (r: Phase)
        ensures
            r == self@.phase,
    {
        self.phase
    }

    /// The bytes of the style that the sink last accepted, if any.
    pub fn active_style(&self) -> (r: Option<&Vec<u8>>)
        ensures
            match r {
                Some(b) => self@.active == Some(b@),
                None => self@.active is None,
            },
    {
        self.active.as_ref()
    }
}

} // verus!
