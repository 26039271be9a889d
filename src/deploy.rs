//! The registry of deploy targets and the step-by-step protocol of one
//! deployment. A `Deployment` decides; its caller performs each `Action`
//! (a copy, a connection, a password prompt, an upload, a remote command)
//! and reports what happened as an `Event`.
use crate::collect::DirEntry;
use crate::config::Deploy;
use crate::text::{concat, eq_ignoring_case, equals_ignoring_case, join_path, joined, owned};
use vstd::prelude::*;

verus! {

/// How many times a password is asked for before the secure-shell target gives up.
pub const PASSWORD_ATTEMPTS: u8 = 3;

/// A registered deploy target.
#[derive(Clone, Copy, Debug, PartialEq, Eq, Structural)]
pub enum TargetKind {
    Ssh,
    FsCopy,
}

/// The target registered under `name`, compared ignoring ASCII case.
pub open spec fn target_kind_of(name: Seq<char>) -> Option<TargetKind> {
    if eq_ignoring_case(name, seq!['s', 's', 'h']) {
        Some(TargetKind::Ssh)
    } else if eq_ignoring_case(name, seq!['f', 's', 'c', 'o', 'p', 'y']) {
        Some(TargetKind::FsCopy)
    } else {
        None
    }
}

impl TargetKind {
    /// Looks `name` up in the registry.
    pub fn from_name(name: &str) -> (r: Option<TargetKind>)
        ensures
            r == target_kind_of(name@),
    {
        proof {
            reveal_strlit("ssh");
            reveal_strlit("fscopy");
            assert("ssh"@ =~= seq!['s', 's', 'h']);
            assert("fscopy"@ =~= seq!['f', 's', 'c', 'o', 'p', 'y']);
        }
        if equals_ignoring_case(name, "ssh") {
            Some(TargetKind::Ssh)
        } else if equals_ignoring_case(name, "fscopy") {
            Some(TargetKind::FsCopy)
        } else {
            None
        }
    }
}

/// Whether a deploy target is registered under `target`, ignoring ASCII case.
pub fn support_deploy_target(target: &str) -> (r: bool)
    ensures
        r == target_kind_of(target@) is Some,
{
    TargetKind::from_name(target).is_some()
}

/// Where a deployment stands: the step whose outcome it waits for.
#[derive(Clone, Copy, Debug, PartialEq, Eq, Structural)]
pub enum Phase {
    /// Copying the listed entry at this index.
    Copying(usize),
    Connecting,
    /// Asking for a password; the number of attempts already used.
    Prompting(u8),
    /// Trying the password given at this attempt.
    Authenticating(u8),
    MakingDir,
    /// Uploading the listed entry at this index.
    Uploading(usize),
    UploadingScript,
    RunningScript,
    RemovingScript,
    Done,
}

/// What the caller is asked to do next.
#[derive(Debug, PartialEq, Eq)]
pub enum Action {
    /// Copy the local file `from` to `to`.
    Copy { from: String, to: String },
    /// Open a secure-shell connection to `host`.
    Connect { host: String },
    /// Ask the user for `user`'s password, without echoing it.
    AskPassword { user: String },
    /// Authenticate `user` with `password`.
    Authenticate { user: String, password: String },
    /// Send the local file `local` to `remote`, keeping its permission bits.
    Upload { local: String, remote: String },
    /// Run `command` on the remote host; its failure is only reported.
    Run { command: String },
    /// The deployment is over, with this outcome.
    Finish(Result<(), String>),
}

/// An action, with its strings as sequences.
pub enum ActionView {
    Copy(Seq<char>, Seq<char>),
    Connect(Seq<char>),
    AskPassword(Seq<char>),
    Authenticate(Seq<char>, Seq<char>),
    Upload(Seq<char>, Seq<char>),
    Run(Seq<char>),
    Succeed,
    Fail(Seq<char>),
}

impl View for Action {
    type V = ActionView;

    open spec fn view(&self) -> ActionView {
        match self {
            Action::Copy { from, to } => ActionView::Copy(from@, to@),
            Action::Connect { host } => ActionView::Connect(host@),
            Action::AskPassword { user } => ActionView::AskPassword(user@),
            Action::Authenticate { user, password } => ActionView::Authenticate(
                user@,
                password@,
            ),
            Action::Upload { local, remote } => ActionView::Upload(local@, remote@),
            Action::Run { command } => ActionView::Run(command@),
            Action::Finish(Ok(())) => ActionView::Succeed,
            Action::Finish(Err(m)) => ActionView::Fail(m@),
        }
    }
}

/// What came of the last action.
#[derive(Clone, Debug, PartialEq, Eq)]
pub enum Event {
    /// It was carried out.
    Completed,
    /// It failed, with this message.
    Failed(String),
    /// The user typed this password.
    Password(String),
}

/// An event, with its strings as sequences.
pub enum EventView {
    Completed,
    Failed(Seq<char>),
    Password(Seq<char>),
}

impl View for Event {
    type V = EventView;

    open spec fn view(&self) -> EventView {
        match self {
            Event::Completed => EventView::Completed,
            Event::Failed(m) => EventView::Failed(m@),
            Event::Password(p) => EventView::Password(p@),
        }
    }
}

/// Why a deployment could not start.
#[derive(Clone, Debug, PartialEq, Eq)]
pub enum DeployError {
    /// No target is registered under this name.
    UnsupportedTarget(String),
    /// The target has no parameter block in the configuration.
    MissingParameters(String),
}

/// The message with which the secure-shell target gives up on empty passwords.
pub open spec fn empty_password_message() -> Seq<char> {
    "SSH password can not be empty"@
}

/// One deployment of the cook directory's entries to one target.
pub struct Deployment {
    entries: Vec<DirEntry>,
    /// The destination directory: the local path, or the remote path.
    dest: String,
    host: String,
    user: String,
    script: Option<String>,
    phase: Phase,
}

/// A deployment as a value: what it deploys, where, and the phase it is in.
pub struct DeploymentView {
    /// The entries of the directory being deployed, in listing order.
    pub listing: Seq<DirEntry>,
    /// The destination directory: the local path, or the remote path.
    pub dest: Seq<char>,
    /// The remote host.
    pub host: Seq<char>,
    /// The remote user.
    pub user: Seq<char>,
    /// The deploy script, if one is run.
    pub script: Option<Seq<char>>,
    /// The step whose outcome the deployment waits for.
    pub phase: Phase,
}

impl View for Deployment {
    type V = DeploymentView;

    closed spec fn view(&self) -> DeploymentView {
        DeploymentView {
            listing: self.entries@,
            dest: self.dest@,
            host: self.host@,
            user: self.user@,
            script: match self.script {
                Some(s) => Some(s@),
                None => None,
            },
            phase: self.phase,
        }
    }
}

impl DeploymentView {
    /// The indices and attempt counts in the phase are in range.
    pub open spec fn wf(&self) -> bool {
        match self.phase {
            Phase::Copying(i) => i < self.listing.len(),
            Phase::Uploading(i) => i < self.listing.len(),
            Phase::Prompting(a) => a < PASSWORD_ATTEMPTS,
            Phase::Authenticating(a) => a < PASSWORD_ATTEMPTS,
            Phase::UploadingScript | Phase::RunningScript | Phase::RemovingScript => self.script is Some,
            _ => true,
        }
    }

    /// The destination of the listed entry `i`.
    pub open spec fn target_of(&self, i: int) -> Seq<char> {
        joined(self.dest, self.listing[i].name@)
    }

    /// The deploy script's name.
    pub open spec fn script_name(&self) -> Seq<char> {
        self.script->Some_0
    }

    /// The phase entered, and the action asked for, on moving on to `p`
    /// (for `Copying` and `Uploading`, to the listed entry at that index, or
    /// past the listing when there is none).
    pub open spec fn enter(&self, p: Phase) -> (Phase, ActionView) {
        match p {
            Phase::Copying(i) => if i < self.listing.len() {
                (p, ActionView::Copy(self.listing[i as int].path@, self.target_of(i as int)))
            } else {
                (Phase::Done, ActionView::Succeed)
            },
            Phase::Connecting => (p, ActionView::Connect(self.host)),
            Phase::Prompting(_) => (p, ActionView::AskPassword(self.user)),
            Phase::MakingDir => (p, ActionView::Run("mkdir -p "@ + self.dest)),
            Phase::Uploading(i) => if i < self.listing.len() {
                (p, ActionView::Upload(self.listing[i as int].path@, self.target_of(i as int)))
            } else if self.script is Some {
                (
                    Phase::UploadingScript,
                    ActionView::Upload(self.script_name(), joined(self.dest, self.script_name())),
                )
            } else {
                (Phase::Done, ActionView::Succeed)
            },
            Phase::RunningScript => if self.script is Some {
                (p, ActionView::Run("cd "@ + self.dest + "; sh "@ + self.script_name()))
            } else {
                (Phase::Done, ActionView::Succeed)
            },
            Phase::RemovingScript => if self.script is Some {
                (p, ActionView::Run("rm "@ + joined(self.dest, self.script_name())))
            } else {
                (Phase::Done, ActionView::Succeed)
            },
            _ => (Phase::Done, ActionView::Succeed),
        }
    }

    /// The phase and action that follow `e` in the current phase. A copy, the
    /// connection, an upload, or a failed read of the password ends the
    /// deployment with its message. An empty password, and a refused one, use
    /// up an attempt; at the last attempt the deployment ends. Remote commands
    /// never fail it.
    pub open spec fn step(&self, e: EventView) -> (Phase, ActionView) {
        match self.phase {
            Phase::Copying(i) => match e {
                EventView::Failed(m) => (Phase::Done, ActionView::Fail(m)),
                _ => self.enter(Phase::Copying((i + 1) as usize)),
            },
            Phase::Connecting => match e {
                EventView::Failed(m) => (Phase::Done, ActionView::Fail(m)),
                _ => self.enter(Phase::Prompting(0)),
            },
            Phase::Prompting(a) => match e {
                EventView::Failed(m) => (Phase::Done, ActionView::Fail(m)),
                EventView::Password(pw) => if pw.len() > 0 {
                    (Phase::Authenticating(a), ActionView::Authenticate(self.user, pw))
                } else if a + 1 >= PASSWORD_ATTEMPTS {
                    (Phase::Done, ActionView::Fail(empty_password_message()))
                } else {
                    self.enter(Phase::Prompting((a + 1) as u8))
                },
                EventView::Completed => if a + 1 >= PASSWORD_ATTEMPTS {
                    (Phase::Done, ActionView::Fail(empty_password_message()))
                } else {
                    self.enter(Phase::Prompting((a + 1) as u8))
                },
            },
            Phase::Authenticating(a) => match e {
                EventView::Failed(m) => if a + 1 >= PASSWORD_ATTEMPTS {
                    (Phase::Done, ActionView::Fail(m))
                } else {
                    self.enter(Phase::Prompting((a + 1) as u8))
                },
                _ => self.enter(Phase::MakingDir),
            },
            Phase::MakingDir => self.enter(Phase::Uploading(0)),
            Phase::Uploading(i) => match e {
                EventView::Failed(m) => (Phase::Done, ActionView::Fail(m)),
                _ => self.enter(Phase::Uploading((i + 1) as usize)),
            },
            Phase::UploadingScript => match e {
                EventView::Failed(m) => (Phase::Done, ActionView::Fail(m)),
                _ => self.enter(Phase::RunningScript),
            },
            Phase::RunningScript => self.enter(Phase::RemovingScript),
            Phase::RemovingScript => (Phase::Done, ActionView::Succeed),
            Phase::Done => (Phase::Done, ActionView::Succeed),
        }
    }

    /// The same deployment in phase `p`.
    pub open spec fn with_phase(self, p: Phase) -> DeploymentView {
        DeploymentView { phase: p, ..self }
    }
}

impl Deployment {
    /// Whether the deployment is over.
    pub fn is_done(&self) -> (r: bool)
        ensures
            r == (self@.phase == Phase::Done),
    {
        self.phase == Phase::Done
    }

    /// Moves on to `p`: the phase entered and the action asked for.
    fn enter_phase(&self, p: Phase) -> (r: (Phase, Action))
        ensures
            (r.0, r.1@) == self@.enter(p),
    {
        match p {
            Phase::Copying(i) => if i < self.entries.len() {
                let e = &self.entries[i];
                (p, Action::Copy { from: e.path.clone(), to: join_path(&self.dest, &e.name) })
            } else {
                (Phase::Done, Action::Finish(Ok(())))
            },
            Phase::Connecting => (p, Action::Connect { host: self.host.clone() }),
            Phase::Prompting(_) => (p, Action::AskPassword { user: self.user.clone() }),
            Phase::MakingDir => (p, Action::Run { command: concat("mkdir -p ", &self.dest) }),
            Phase::Uploading(i) => if i < self.entries.len() {
                let e = &self.entries[i];
                (p, Action::Upload { local: e.path.clone(), remote: join_path(&self.dest, &e.name) })
            } else {
                match &self.script {
                    Some(s) => (
                        Phase::UploadingScript,
                        Action::Upload { local: s.clone(), remote: join_path(&self.dest, s) },
                    ),
                    None => (Phase::Done, Action::Finish(Ok(()))),
                }
            },
            Phase::RunningScript => match &self.script {
                Some(s) => {
                    let cd = concat("cd ", &self.dest);
                    let sh = concat(&cd, "; sh ");
                    (p, Action::Run { command: concat(&sh, s) })
                },
                None => (Phase::Done, Action::Finish(Ok(()))),
            },
            Phase::RemovingScript => match &self.script {
                Some(s) => {
                    let path = join_path(&self.dest, s);
                    (p, Action::Run { command: concat("rm ", &path) })
                },
                None => (Phase::Done, Action::Finish(Ok(()))),
            },
            _ => (Phase::Done, Action::Finish(Ok(()))),
        }
    }

    /// Takes the outcome of the last action and returns the next one.
    pub fn on_event(&mut self, e: Event) -> (a: Action)
        requires
            old(self)@.wf(),
            old(self)@.phase != Phase::Done,
        ensures
            final(self)@.wf(),
            (final(self)@.phase, a@) == old(self)@.step(e@),
            final(self)@ == old(self)@.with_phase(final(self)@.phase),
            a is Finish <==> final(self)@.phase == Phase::Done,
    {
        let listed = self.entries.len();
        assert(listed == self.entries@.len());
        let (next, action) = match self.phase {
            Phase::Copying(i) => match e {
                Event::Failed(m) => (Phase::Done, Action::Finish(Err(m))),
                _ => self.enter_phase(Phase::Copying(i + 1)),
            },
            Phase::Connecting => match e {
                Event::Failed(m) => (Phase::Done, Action::Finish(Err(m))),
                _ => self.enter_phase(Phase::Prompting(0)),
            },
            Phase::Prompting(a) => {
                let given = match e {
                    Event::Failed(m) => Err(m),
                    Event::Password(pw) => Ok(pw),
                    Event::Completed => Ok(String::new()),
                };
                match given {
                    Err(m) => (Phase::Done, Action::Finish(Err(m))),
                    Ok(pw) => if pw.unicode_len() > 0 {
                        (
                            Phase::Authenticating(a),
                            Action::Authenticate { user: self.user.clone(), password: pw },
                        )
                    } else if a + 1 >= PASSWORD_ATTEMPTS {
                        (Phase::Done, Action::Finish(Err(empty_password_error())))
                    } else {
                        self.enter_phase(Phase::Prompting(a + 1))
                    },
                }
            },
            Phase::Authenticating(a) => match e {
                Event::Failed(m) => if a + 1 >= PASSWORD_ATTEMPTS {
                    (Phase::Done, Action::Finish(Err(m)))
                } else {
                    self.enter_phase(Phase::Prompting(a + 1))
                },
                _ => self.enter_phase(Phase::MakingDir),
            },
            Phase::MakingDir => self.enter_phase(Phase::Uploading(0)),
            Phase::Uploading(i) => match e {
                Event::Failed(m) => (Phase::Done, Action::Finish(Err(m))),
                _ => self.enter_phase(Phase::Uploading(i + 1)),
            },
            Phase::UploadingScript => match e {
                Event::Failed(m) => (Phase::Done, Action::Finish(Err(m))),
                _ => self.enter_phase(Phase::RunningScript),
            },
            Phase::RunningScript => self.enter_phase(Phase::RemovingScript),
            _ => (Phase::Done, Action::Finish(Ok(()))),
        };
        self.phase = next;
        action
    }
}

/// A copy that fails ends the deployment with its message, leaving earlier
/// copies as they are; a copy that succeeds moves on to the next listed
/// entry, or ends the deployment with success after the last one.
pub proof fn lemma_copy_outcome(d: DeploymentView, i: usize, m: Seq<char>)
    requires
        d.wf(),
        d.phase == Phase::Copying(i),
        d.listing.len() <= usize::MAX,
    ensures
        d.step(EventView::Failed(m)) == (Phase::Done, ActionView::Fail(m)),
        i + 1 < d.listing.len() ==> d.step(EventView::Completed) == (
            Phase::Copying((i + 1) as usize),
            ActionView::Copy(d.listing[i + 1].path@, joined(d.dest, d.listing[i + 1].name@)),
        ),
        i + 1 == d.listing.len() ==> d.step(EventView::Completed) == (
            Phase::Done,
            ActionView::Succeed,
        ),
{
}

/// An upload that fails ends the deployment with its message; one that
/// succeeds moves on to the next listed entry, then to the deploy script if
/// there is one, else ends the deployment with success.
pub proof fn lemma_upload_outcome(d: DeploymentView, i: usize, m: Seq<char>)
    requires
        d.wf(),
        d.phase == Phase::Uploading(i),
        d.listing.len() <= usize::MAX,
    ensures
        d.step(EventView::Failed(m)) == (Phase::Done, ActionView::Fail(m)),
        i + 1 < d.listing.len() ==> d.step(EventView::Completed) == (
            Phase::Uploading((i + 1) as usize),
            ActionView::Upload(d.listing[i + 1].path@, joined(d.dest, d.listing[i + 1].name@)),
        ),
        i + 1 == d.listing.len() && d.script is Some ==> d.step(EventView::Completed) == (
            Phase::UploadingScript,
            ActionView::Upload(d.script->Some_0, joined(d.dest, d.script->Some_0)),
        ),
        i + 1 == d.listing.len() && d.script is None ==> d.step(EventView::Completed) == (
            Phase::Done,
            ActionView::Succeed,
        ),
{
}

/// An accepted password leads to creating the remote directory, and only
/// then to the uploads; a refused one asks again until the last attempt.
pub proof fn lemma_authentication_outcome(d: DeploymentView, a: u8, m: Seq<char>)
    requires
        d.wf(),
        d.phase == Phase::Authenticating(a),
    ensures
        d.step(EventView::Completed) == (
            Phase::MakingDir,
            ActionView::Run("mkdir -p "@ + d.dest),
        ),
        a + 1 < PASSWORD_ATTEMPTS ==> d.step(EventView::Failed(m)) == (
            Phase::Prompting((a + 1) as u8),
            ActionView::AskPassword(d.user),
        ),
        a + 1 == PASSWORD_ATTEMPTS ==> d.step(EventView::Failed(m)) == (
            Phase::Done,
            ActionView::Fail(m),
        ),
{
}

/// Three refused passwords end a secure-shell deployment with the last
/// refusal's message. Each password is tried as it is given, a refusal asks
/// for the next one, and nothing is uploaded on the way.
pub proof fn lemma_three_refusals_fail(
    d: DeploymentView,
    pw1: Seq<char>,
    pw2: Seq<char>,
    pw3: Seq<char>,
    m1: Seq<char>,
    m2: Seq<char>,
    m3: Seq<char>,
)
    requires
        d.wf(),
        d.phase == Phase::Prompting(0),
        pw1.len() > 0,
        pw2.len() > 0,
        pw3.len() > 0,
    ensures
        ({
            let (p1, a1) = d.step(EventView::Password(pw1));
            let d1 = d.with_phase(p1);
            let (p2, a2) = d1.step(EventView::Failed(m1));
            let d2 = d.with_phase(p2);
            let (p3, a3) = d2.step(EventView::Password(pw2));
            let d3 = d.with_phase(p3);
            let (p4, a4) = d3.step(EventView::Failed(m2));
            let d4 = d.with_phase(p4);
            let (p5, a5) = d4.step(EventView::Password(pw3));
            let d5 = d.with_phase(p5);
            let (p6, a6) = d5.step(EventView::Failed(m3));
            &&& a1 == ActionView::Authenticate(d.user, pw1)
            &&& a2 == ActionView::AskPassword(d.user)
            &&& a3 == ActionView::Authenticate(d.user, pw2)
            &&& a4 == ActionView::AskPassword(d.user)
            &&& a5 == ActionView::Authenticate(d.user, pw3)
            &&& p6 == Phase::Done
            &&& a6 == ActionView::Fail(m3)
        }),
{
}

fn empty_password_error() -> (r: String)
    ensures
        r@ == empty_password_message(),
{
    owned("SSH password can not be empty")
}

/// Starts deploying the entries of the cook directory, `listing`, to the
/// target named `target`, with the parameters that `d` holds for it, and
/// returns the deployment with its first action: the first copy for the
/// filesystem-copy target, the connection for the secure-shell target.
pub fn deploy(target: &str, listing: Vec<DirEntry>, d: &Deploy) -> (r: Result<
    (Deployment, Action),
    DeployError,
>)
    ensures
        target_kind_of(target@) is None ==> (r matches Err(DeployError::UnsupportedTarget(n))
            && n@ == target@),
        target_kind_of(target@) == Some(TargetKind::FsCopy) ==> match d.fscopy {
            Some(f) => r matches Ok((dep, a)) && dep@.wf() && dep@.listing == listing@
                && dep@.dest == f.path@ && dep@.script is None && (dep@.phase, a@)
                == dep@.enter(Phase::Copying(0)),
            None => r matches Err(DeployError::MissingParameters(n)) && n@ == target@,
        },
        target_kind_of(target@) == Some(TargetKind::Ssh) ==> match d.ssh {
            Some(s) => r matches Ok((dep, a)) && dep@.wf() && dep@.listing == listing@
                && dep@.dest == s.remote_path@ && dep@.host == s.hostname@ && dep@.user
                == s.username@ && dep@.script == (match s.deploy_script {
                Some(p) => Some(p@),
                None => None,
            }) && (dep@.phase, a@) == dep@.enter(Phase::Connecting),
            None => r matches Err(DeployError::MissingParameters(n)) && n@ == target@,
        },
{
    match TargetKind::from_name(target) {
        None => Err(DeployError::UnsupportedTarget(owned(target))),
        Some(TargetKind::FsCopy) => match &d.fscopy {
            Some(f) => {
                let dep = Deployment {
                    entries: listing,
                    dest: f.path.clone(),
                    host: String::new(),
                    user: String::new(),
                    script: None,
                    phase: Phase::Done,
                };
                let (phase, action) = dep.enter_phase(Phase::Copying(0));
                Ok((Deployment { phase, ..dep }, action))
            },
            None => Err(DeployError::MissingParameters(owned(target))),
        },
        Some(TargetKind::Ssh) => match &d.ssh {
            Some(s) => {
                let script = match &s.deploy_script {
                    Some(p) => Some(p.clone()),
                    None => None,
                };
                let dep = Deployment {
                    entries: listing,
                    dest: s.remote_path.clone(),
                    host: s.hostname.clone(),
                    user: s.username.clone(),
                    script,
                    phase: Phase::Done,
                };
                let (phase, action) = dep.enter_phase(Phase::Connecting);
                Ok((Deployment { phase, ..dep }, action))
            },
            None => Err(DeployError::MissingParameters(owned(target))),
        },
    }
}

} // verus!
