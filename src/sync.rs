use vstd::prelude::*;
use vstd::string::StringExecFns;
use crate::clock::{is_digit, lemma_padded_digits, local_now, padded, pow10, timestamp_text, Timestamp};
use crate::config::Config;

verus! {

/// Synchronizes the configured directory with its remote repository.
///
/// The run is a sequence of steps. [`Sync::start`] gives the first action; after the
/// caller carries out an action it hands the outcome to [`Sync::step`], which gives the
/// next action or the end of the run.
pub struct Sync {
    config: Config,
}

/// Where a run stands: the action whose outcome is awaited.
#[derive(Clone, Copy, Debug, PartialEq, Eq, Structural)]
pub enum Phase {
    /// Checking that the directory exists.
    CheckDirectory,
    /// Asking git whether the directory is a repository.
    Probe,
    /// Creating the repository.
    Init,
    /// Removing any `origin` remote; its outcome does not matter.
    RemoveRemote,
    /// Adding the `origin` remote.
    AddRemote,
    /// Listing the working-tree changes.
    Inspect,
    /// Staging every change.
    Stage,
    /// Committing the staged changes.
    Commit,
    /// Pushing `main` to `origin`.
    Push,
}

/// Something for the caller to carry out.
#[derive(Debug)]
pub enum Action {
    /// Check that the directory at this path exists and can be entered.
    CheckDirectory(String),
    /// Run git with these arguments inside the configured directory.
    Git(Vec<String>),
}

/// How an action went.
#[derive(Debug)]
pub enum Outcome {
    /// It ran to the end; `success` is its exit status, the two texts its output.
    Completed { success: bool, stdout: String, stderr: String },
    /// It could not be started.
    NotStarted { reason: String },
}

/// How a successful run ended.
#[derive(Clone, Copy, Debug, PartialEq, Eq, Structural)]
pub enum Report {
    /// The working tree had no changes.
    NothingToSync,
    /// The changes were committed and pushed.
    Synchronized,
}

/// Why a run stopped.
#[derive(Debug)]
pub enum SyncError {
    /// The configured directory is missing or cannot be entered.
    DirectoryUnavailable(String),
    /// Git ran and failed; this is what it printed on its error stream.
    ToolFailed(String),
    /// Git could not be started.
    SpawnFailed(String),
}

/// What comes after an outcome.
#[derive(Debug)]
pub enum Transition {
    /// Carry out `action`, then report its outcome in `phase`.
    Continue { phase: Phase, action: Action },
    /// The run is over.
    Finish(Result<Report, SyncError>),
}

pub enum ActionView {
    CheckDirectory(Seq<char>),
    Git(Seq<Seq<char>>),
}

pub enum OutcomeView {
    Completed { success: bool, stdout: Seq<char>, stderr: Seq<char> },
    NotStarted { reason: Seq<char> },
}

pub enum ErrorView {
    DirectoryUnavailable(Seq<char>),
    ToolFailed(Seq<char>),
    SpawnFailed(Seq<char>),
}

pub enum TransitionView {
    Continue { phase: Phase, action: ActionView },
    Finish(Result<Report, ErrorView>),
}

impl View for Action {
    type V = ActionView;

    open spec fn view(&self) -> ActionView {
        match self {
            Action::CheckDirectory(p) => ActionView::CheckDirectory(p@),
            Action::Git(args) => ActionView::Git(args.deep_view()),
        }
    }
}

impl View for Outcome {
    type V = OutcomeView;

    open spec fn view(&self) -> OutcomeView {
        match self {
            Outcome::Completed { success, stdout, stderr } => OutcomeView::Completed {
                success: *success,
                stdout: stdout@,
                stderr: stderr@,
            },
            Outcome::NotStarted { reason } => OutcomeView::NotStarted { reason: reason@ },
        }
    }
}

impl View for SyncError {
    type V = ErrorView;

    open spec fn view(&self) -> ErrorView {
        match self {
            SyncError::DirectoryUnavailable(s) => ErrorView::DirectoryUnavailable(s@),
            SyncError::ToolFailed(s) => ErrorView::ToolFailed(s@),
            SyncError::SpawnFailed(s) => ErrorView::SpawnFailed(s@),
        }
    }
}

impl View for Transition {
    type V = TransitionView;

    open spec fn view(&self) -> TransitionView {
        match self {
            Transition::Continue { phase, action } => TransitionView::Continue {
                phase: *phase,
                action: action@,
            },
            Transition::Finish(Ok(rep)) => TransitionView::Finish(Ok(*rep)),
            Transition::Finish(Err(e)) => TransitionView::Finish(Err(e@)),
        }
    }
}

/// The text split at each `\n`, as `str::split('\n')` splits it: one more piece than there
/// are newlines.
pub open spec fn pieces(s: Seq<char>) -> Seq<Seq<char>>
    decreases s.len(),
{
    if s.len() == 0 {
        seq![Seq::empty()]
    } else {
        let p = pieces(s.drop_last());
        if s.last() == '\n' {
            p.push(Seq::empty())
        } else {
            p.update(p.len() - 1, p.last().push(s.last()))
        }
    }
}

/// A line without its trailing carriage return, if it has one.
pub open spec fn strip_cr(l: Seq<char>) -> Seq<char> {
    if l.len() > 0 && l.last() == '\r' {
        l.drop_last()
    } else {
        l
    }
}

/// The lines of a text: a final newline ends the last line rather than starting a new
/// one, and each line loses a trailing carriage return.
pub open spec fn lines_of(s: Seq<char>) -> Seq<Seq<char>> {
    let p = pieces(s);
    let full = if p.last().len() == 0 {
        p.drop_last()
    } else {
        p
    };
    full.map_values(|l: Seq<char>| strip_cr(l))
}

/// The lines of git's status output, one for each changed path.
pub fn status_lines(out: &str) -> (r: Vec<String>)
    ensures
        r.deep_view() == lines_of(out@),
{
    let n = out.unicode_len();
    let mut lines: Vec<String> = Vec::new();
    let mut start: usize = 0;
    let mut i: usize = 0;
    let mut prev_cr = false;
    let ghost mut raw: Seq<Seq<char>> = Seq::empty();
    proof {
        assert(out@.subrange(0, 0) =~= Seq::<char>::empty());
        assert(pieces(Seq::<char>::empty()) == seq![Seq::<char>::empty()]);
        assert(raw.push(out@.subrange(0, 0)) =~= seq![Seq::<char>::empty()]);
    }
    while i < n
        invariant
            n == out@.len(),
            start <= i <= n,
            pieces(out@.subrange(0, i as int)) == raw.push(out@.subrange(start as int, i as int)),
            lines.deep_view() == raw.map_values(|l: Seq<char>| strip_cr(l)),
            prev_cr <==> (i > start && out@[i - 1] == '\r'),
        decreases n - i,
    {
        let c = out.get_char(i);
        proof {
            let pre = out@.subrange(0, i + 1);
            assert(pre.drop_last() =~= out@.subrange(0, i as int));
            assert(pre.last() == c);
        }
        if c == '\n' {
            let end = if prev_cr { i - 1 } else { i };
            let line = out.substring_char(start, end);
            let ghost seg = out@.subrange(start as int, i as int);
            proof {
                assert(line@ == strip_cr(seg)) by {
                    if prev_cr {
                        assert(seg.drop_last() =~= out@.subrange(start as int, end as int));
                    }
                }
            }
            let ghost before = lines.deep_view();
            let owned = line.to_owned();
            lines.push(owned);
            proof {
                assert(lines.deep_view() =~= before.push(line@));
                raw = raw.push(seg);
                assert(out@.subrange((i + 1) as int, (i + 1) as int) =~= Seq::<char>::empty());
                assert(lines.deep_view() =~= raw.map_values(|l: Seq<char>| strip_cr(l)));
            }
            start = i + 1;
            prev_cr = false;
        } else {
            proof {
                assert(out@.subrange(start as int, i + 1) =~= out@.subrange(start as int, i as int).push(c));
            }
            prev_cr = c == '\r';
        }
        i = i + 1;
    }
    proof {
        assert(out@.subrange(0, n as int) =~= out@);
    }
    if start < n {
        let end = if prev_cr { n - 1 } else { n };
        let line = out.substring_char(start, end);
        let ghost seg = out@.subrange(start as int, n as int);
        proof {
            assert(line@ == strip_cr(seg)) by {
                if prev_cr {
                    assert(seg.drop_last() =~= out@.subrange(start as int, end as int));
                }
            }
        }
        let ghost before = lines.deep_view();
        let owned = line.to_owned();
        lines.push(owned);
        proof {
            assert(lines.deep_view() =~= before.push(line@));
            let p = raw.push(seg);
            assert(p.drop_last() =~= raw);
            assert(lines.deep_view() =~= p.map_values(|l: Seq<char>| strip_cr(l)));
        }
    } else {
        proof {
            let p = raw.push(out@.subrange(start as int, n as int));
            assert(p.drop_last() =~= raw);
        }
    }
    lines
}

/// The address of the GitHub repository `repo` (`owner/name`).
pub open spec fn remote_url(repo: Seq<char>) -> Seq<char> {
    "https://github.com/"@ + repo + ".git"@
}

/// The message of a commit made at `t`.
pub open spec fn commit_message(t: Timestamp) -> Seq<char> {
    "git-sync: "@ + timestamp_text(t)
}

pub open spec fn git(args: Seq<Seq<char>>) -> ActionView {
    ActionView::Git(args)
}

pub open spec fn go(phase: Phase, action: ActionView) -> TransitionView {
    TransitionView::Continue { phase, action }
}

pub open spec fn probe_args() -> Seq<Seq<char>> {
    seq!["rev-parse"@, "--git-dir"@]
}

pub open spec fn init_args() -> Seq<Seq<char>> {
    seq!["init"@]
}

pub open spec fn remove_remote_args() -> Seq<Seq<char>> {
    seq!["remote"@, "remove"@, "origin"@]
}

pub open spec fn add_remote_args(repo: Seq<char>) -> Seq<Seq<char>> {
    seq!["remote"@, "add"@, "origin"@, remote_url(repo)]
}

pub open spec fn status_args() -> Seq<Seq<char>> {
    seq!["status"@, "--porcelain"@]
}

pub open spec fn stage_args() -> Seq<Seq<char>> {
    seq!["add"@, "."@]
}

pub open spec fn commit_args(t: Timestamp) -> Seq<Seq<char>> {
    seq!["commit"@, "-m"@, commit_message(t)]
}

pub open spec fn push_args() -> Seq<Seq<char>> {
    seq!["push"@, "origin"@, "main"@]
}

/// The first transition of a run in the directory `dir`.
pub open spec fn first(dir: Seq<char>) -> TransitionView {
    go(Phase::CheckDirectory, ActionView::CheckDirectory(dir))
}

/// The error that a git step which did not succeed ends the run with.
pub open spec fn error_of(outcome: OutcomeView) -> ErrorView {
    match outcome {
        OutcomeView::Completed { stderr, .. } => ErrorView::ToolFailed(stderr),
        OutcomeView::NotStarted { reason } => ErrorView::SpawnFailed(reason),
    }
}

pub open spec fn completed_ok(o: OutcomeView) -> bool {
    o is Completed && o->Completed_success
}

/// After a git step that must succeed: on success `next`, else the step's error.
pub open spec fn after_required(outcome: OutcomeView, next: TransitionView) -> TransitionView {
    if completed_ok(outcome) {
        next
    } else {
        TransitionView::Finish(Err(error_of(outcome)))
    }
}

/// The transition that follows `outcome` in `phase`, for the repository `repo`, with `now`
/// the local time at which the step is taken.
pub open spec fn next(repo: Seq<char>, phase: Phase, outcome: OutcomeView, now: Timestamp) -> TransitionView {
    match phase {
        Phase::CheckDirectory => match outcome {
            OutcomeView::Completed { success, stderr, .. } => if success {
                go(Phase::Probe, git(probe_args()))
            } else {
                TransitionView::Finish(Err(ErrorView::DirectoryUnavailable(stderr)))
            },
            OutcomeView::NotStarted { reason } => TransitionView::Finish(
                Err(ErrorView::DirectoryUnavailable(reason)),
            ),
        },
        Phase::Probe => match outcome {
            OutcomeView::Completed { success, .. } => if success {
                go(Phase::Inspect, git(status_args()))
            } else {
                go(Phase::Init, git(init_args()))
            },
            OutcomeView::NotStarted { reason } => TransitionView::Finish(
                Err(ErrorView::SpawnFailed(reason)),
            ),
        },
        Phase::Init => after_required(outcome, go(Phase::RemoveRemote, git(remove_remote_args()))),
        Phase::RemoveRemote => go(Phase::AddRemote, git(add_remote_args(repo))),
        Phase::AddRemote => after_required(outcome, go(Phase::Inspect, git(status_args()))),
        Phase::Inspect => match outcome {
            OutcomeView::Completed { success: true, stdout, .. } => if stdout.len() == 0 {
                TransitionView::Finish(Ok(Report::NothingToSync))
            } else {
                go(Phase::Stage, git(stage_args()))
            },
            _ => TransitionView::Finish(Err(error_of(outcome))),
        },
        Phase::Stage => after_required(outcome, go(Phase::Commit, git(commit_args(now)))),
        Phase::Commit => after_required(outcome, go(Phase::Push, git(push_args()))),
        Phase::Push => after_required(outcome, TransitionView::Finish(Ok(Report::Synchronized))),
    }
}

fn text(s: &str) -> (r: String)
    ensures
        r@ == s@,
{
    String::from_str(s)
}

fn git_action(args: Vec<String>) -> (r: Action)
    ensures
        r@ == git(args.deep_view()),
{
    Action::Git(args)
}

/// The error for a git step that did not succeed.
fn failure(outcome: Outcome) -> (r: SyncError)
    ensures
        r@ == error_of(outcome@),
{
    match outcome {
        Outcome::Completed { stderr, .. } => SyncError::ToolFailed(stderr),
        Outcome::NotStarted { reason } => SyncError::SpawnFailed(reason),
    }
}

/// Whether the outcome is a completed run with exit status zero.
fn succeeded(outcome: &Outcome) -> (r: bool)
    ensures
        r == completed_ok(outcome@),
{
    match outcome {
        Outcome::Completed { success, .. } => *success,
        Outcome::NotStarted { .. } => false,
    }
}

impl Sync {
    pub closed spec fn repo(&self) -> Seq<char> {
        self.config.github_repo@
    }

    pub closed spec fn directory(&self) -> Seq<char> {
        self.config.directory_path@
    }

    /// A synchronizer for `config`.
    pub fn new(config: Config) -> (r: Sync)
        ensures
            r.repo() == config.github_repo@,
            r.directory() == config.directory_path@,
    {
        Sync { config }
    }

    /// The first action of a run: check the configured directory.
    pub fn start(&self) -> (r: Transition)
        ensures
            r@ == first(self.directory()),
    {
        Transition::Continue {
            phase: Phase::CheckDirectory,
            action: Action::CheckDirectory(self.config.directory_path.clone()),
        }
    }

    /// What follows `outcome`, the result of the action of `phase`; `now` is the local time,
    /// which names the commit.
    pub fn step(&self, phase: Phase, outcome: Outcome, now: Timestamp) -> (r: Transition)
        ensures
            r@ == next(self.repo(), phase, outcome@, now),
    {
        let ok = succeeded(&outcome);
        match phase {
            Phase::CheckDirectory => {
                if ok {
                    let args = vec![text("rev-parse"), text("--git-dir")];
                    proof { assert(args.deep_view() =~= probe_args()); }
                    Transition::Continue { phase: Phase::Probe, action: git_action(args) }
                } else {
                    match outcome {
                        Outcome::Completed { stderr, .. } => Transition::Finish(
                            Err(SyncError::DirectoryUnavailable(stderr)),
                        ),
                        Outcome::NotStarted { reason } => Transition::Finish(
                            Err(SyncError::DirectoryUnavailable(reason)),
                        ),
                    }
                }
            },
            Phase::Probe => {
                match outcome {
                    Outcome::Completed { success, .. } => {
                        if success {
                            self.status_transition()
                        } else {
                            let args = vec![text("init")];
                            proof { assert(args.deep_view() =~= init_args()); }
                            Transition::Continue { phase: Phase::Init, action: git_action(args) }
                        }
                    },
                    Outcome::NotStarted { reason } => Transition::Finish(
                        Err(SyncError::SpawnFailed(reason)),
                    ),
                }
            },
            Phase::Init => {
                if ok {
                    let args = vec![text("remote"), text("remove"), text("origin")];
                    proof { assert(args.deep_view() =~= remove_remote_args()); }
                    Transition::Continue { phase: Phase::RemoveRemote, action: git_action(args) }
                } else {
                    Transition::Finish(Err(failure(outcome)))
                }
            },
            Phase::RemoveRemote => {
                let url = text("https://github.com/").concat(self.config.github_repo.as_str()).concat(
                    ".git",
                );
                let args = vec![text("remote"), text("add"), text("origin"), url];
                proof { assert(args.deep_view() =~= add_remote_args(self.repo())); }
                Transition::Continue { phase: Phase::AddRemote, action: git_action(args) }
            },
            Phase::AddRemote => {
                if ok {
                    self.status_transition()
                } else {
                    Transition::Finish(Err(failure(outcome)))
                }
            },
            Phase::Inspect => {
                match outcome {
                    Outcome::Completed { success: true, stdout, .. } => {
                        if stdout.as_str().is_empty() {
                            Transition::Finish(Ok(Report::NothingToSync))
                        } else {
                            let args = vec![text("add"), text(".")];
                            proof { assert(args.deep_view() =~= stage_args()); }
                            Transition::Continue { phase: Phase::Stage, action: git_action(args) }
                        }
                    },
                    other => Transition::Finish(Err(failure(other))),
                }
            },
            Phase::Stage => {
                if ok {
                    let message = text("git-sync: ").concat(now.text().as_str());
                    let args = vec![text("commit"), text("-m"), message];
                    proof { assert(args.deep_view() =~= commit_args(now)); }
                    Transition::Continue { phase: Phase::Commit, action: git_action(args) }
                } else {
                    Transition::Finish(Err(failure(outcome)))
                }
            },
            Phase::Commit => {
                if ok {
                    let args = vec![text("push"), text("origin"), text("main")];
                    proof { assert(args.deep_view() =~= push_args()); }
                    Transition::Continue { phase: Phase::Push, action: git_action(args) }
                } else {
                    Transition::Finish(Err(failure(outcome)))
                }
            },
            Phase::Push => {
                if ok {
                    Transition::Finish(Ok(Report::Synchronized))
                } else {
                    Transition::Finish(Err(failure(outcome)))
                }
            },
        }
    }

    fn status_transition(&self) -> (r: Transition)
        ensures
            r@ == go(Phase::Inspect, git(status_args())),
    {
        let args = vec![text("status"), text("--porcelain")];
        proof { assert(args.deep_view() =~= status_args()); }
        Transition::Continue { phase: Phase::Inspect, action: git_action(args) }
    }

    /// [`Sync::step`] at the current local time: the transition is the one `next` gives
    /// for some well-formed local time.
    pub fn step_now(&self, phase: Phase, outcome: Outcome) -> (r: Transition)
        ensures
            exists|t: Timestamp| t.wf() && r@ == next(self.repo(), phase, outcome@, t),
    {
        let now = local_now();
        self.step(phase, outcome, now)
    }
}

/// In a directory that is already a repository and whose status lists no change, a run
/// checks the directory, probes, lists the status and ends with nothing to synchronize:
/// it stages, commits and pushes nothing.
pub proof fn clean_repository_is_left_alone(
    repo: Seq<char>,
    dir: Seq<char>,
    now: Timestamp,
    entered: OutcomeView,
    probed: OutcomeView,
    status: OutcomeView,
)
    requires
        completed_ok(entered),
        completed_ok(probed),
        completed_ok(status),
        status->Completed_stdout.len() == 0,
    ensures
        first(dir) == go(Phase::CheckDirectory, ActionView::CheckDirectory(dir)),
        next(repo, Phase::CheckDirectory, entered, now) == go(Phase::Probe, git(probe_args())),
        next(repo, Phase::Probe, probed, now) == go(Phase::Inspect, git(status_args())),
        next(repo, Phase::Inspect, status, now) == TransitionView::Finish(Ok(Report::NothingToSync)),
{
}

/// In a repository whose status lists changes, a run stages everything, makes one commit
/// named after the local time, pushes `main` to `origin` and ends synchronized.
pub proof fn changes_are_committed_and_pushed(
    repo: Seq<char>,
    now: Timestamp,
    status: OutcomeView,
    staged: OutcomeView,
    committed: OutcomeView,
    pushed: OutcomeView,
)
    requires
        completed_ok(status),
        status->Completed_stdout.len() > 0,
        completed_ok(staged),
        completed_ok(committed),
        completed_ok(pushed),
    ensures
        next(repo, Phase::Inspect, status, now) == go(Phase::Stage, git(stage_args())),
        next(repo, Phase::Stage, staged, now) == go(
            Phase::Commit,
            git(seq!["commit"@, "-m"@, commit_message(now)]),
        ),
        next(repo, Phase::Commit, committed, now) == go(Phase::Push, git(push_args())),
        next(repo, Phase::Push, pushed, now) == TransitionView::Finish(Ok(Report::Synchronized)),
{
}

/// In a directory that is not yet a repository, a run initializes one, removes any
/// `origin` remote whatever that removal gives, adds `origin` pointing at
/// `https://github.com/<repo>.git`, and goes on to list the status.
pub proof fn new_repository_gets_origin(
    repo: Seq<char>,
    now: Timestamp,
    probed: OutcomeView,
    initialized: OutcomeView,
    removed: OutcomeView,
    added: OutcomeView,
)
    requires
        probed is Completed && !probed->Completed_success,
        completed_ok(initialized),
        completed_ok(added),
    ensures
        next(repo, Phase::Probe, probed, now) == go(Phase::Init, git(seq!["init"@])),
        next(repo, Phase::Init, initialized, now) == go(
            Phase::RemoveRemote,
            git(seq!["remote"@, "remove"@, "origin"@]),
        ),
        next(repo, Phase::RemoveRemote, removed, now) == go(
            Phase::AddRemote,
            git(seq!["remote"@, "add"@, "origin"@, "https://github.com/"@ + repo + ".git"@]),
        ),
        next(repo, Phase::AddRemote, added, now) == go(Phase::Inspect, git(status_args())),
{
}

/// The shape `git-sync: YYYY-MM-DD HH:MM:SS`, each letter a decimal digit.
pub open spec fn is_commit_message_shape(m: Seq<char>) -> bool {
    &&& m.len() == 29
    &&& m.subrange(0, 10) == "git-sync: "@
    &&& m[14] == '-' && m[17] == '-' && m[20] == ' ' && m[23] == ':' && m[26] == ':'
    &&& forall|i: int|
        10 <= i < 29 && i != 14 && i != 17 && i != 20 && i != 23 && i != 26 ==> is_digit(#[trigger] m[i])
}

/// A commit made at a well-formed time of a year from 0 to 9999 has a message of the shape
/// `git-sync: YYYY-MM-DD HH:MM:SS`.
pub proof fn commit_message_has_timestamp_shape(t: Timestamp)
    requires
        t.wf(),
        0 <= t.year <= 9999,
    ensures
        is_commit_message_shape(commit_message(t)),
{
    reveal_strlit("git-sync: ");
    assert(pow10(2) == 100 && pow10(4) == 10000) by {
        reveal_with_fuel(pow10, 5);
    }
    lemma_padded_digits(t.year as nat, 4);
    lemma_padded_digits(t.month as nat, 2);
    lemma_padded_digits(t.day as nat, 2);
    lemma_padded_digits(t.hour as nat, 2);
    lemma_padded_digits(t.minute as nat, 2);
    lemma_padded_digits(t.second as nat, 2);
    let m = commit_message(t);
    assert(m.subrange(0, 10) =~= "git-sync: "@);
    assert forall|i: int|
        10 <= i < 29 && i != 14 && i != 17 && i != 20 && i != 23 && i != 26 implies is_digit(#[trigger] m[i]) by {
        if i < 14 {
            assert(m[i] == padded(t.year as nat, 4)[i - 10]);
        } else if i < 17 {
            assert(m[i] == padded(t.month as nat, 2)[i - 15]);
        } else if i < 20 {
            assert(m[i] == padded(t.day as nat, 2)[i - 18]);
        } else if i < 23 {
            assert(m[i] == padded(t.hour as nat, 2)[i - 21]);
        } else if i < 26 {
            assert(m[i] == padded(t.minute as nat, 2)[i - 24]);
        } else {
            assert(m[i] == padded(t.second as nat, 2)[i - 27]);
        }
    }
}

} // verus!
