//! The per-issue triage orchestrator.
//!
//! The orchestrator is a state machine over the externally supplied
//! sequence of unlabeled issues.  It owns no I/O: `next_command` says
//! what the surroundings should do next (query the model, ask the
//! operator, apply labels, or stop), and the `on_*` methods fold the
//! outcome of that work back into the state.  A failed model call or a
//! failed label application halts the whole run; an operator decline
//! or an empty label set ends only the current issue.

use vstd::prelude::*;

use crate::config::{Config, ConfigView};
use crate::confirm::approves;
use crate::confirm::is_affirmative;
use crate::issue::{filter_issues, is_triagable, triagable_only, Issue, IssueView};
use crate::parser::{parse_response, parse_spec};
use crate::prompt::{build_prompt, prompt_spec};

verus! {

/// Where the orchestrator stands within the current issue.
pub enum Phase {
    /// The prompt is (or is about to be) out to the model.
    AwaitModel,
    /// `labels` were suggested; the operator has to confirm.
    AwaitConfirm { labels: Vec<String> },
    /// `labels` are to be applied through the tracker.
    AwaitApply { labels: Vec<String> },
}

/// Mathematical image of a `Phase`.
#[verifier::ext_equal]
pub enum PhaseView {
    AwaitModel,
    AwaitConfirm { labels: Seq<Seq<char>> },
    AwaitApply { labels: Seq<Seq<char>> },
}

impl View for Phase {
    type V = PhaseView;

    open spec fn view(&self) -> PhaseView {
        match self {
            Phase::AwaitModel => PhaseView::AwaitModel,
            Phase::AwaitConfirm { labels } => (PhaseView::AwaitConfirm {
                labels: labels.deep_view(),
            }),
            Phase::AwaitApply { labels } => (PhaseView::AwaitApply { labels: labels.deep_view() }),
        }
    }
}

/// What the orchestrator asks its surroundings to do next.
pub enum Command {
    /// Send `prompt` to the language model for the issue numbered
    /// `issue_number`.
    QueryModel { issue_number: u64, prompt: String },
    /// Show `labels` to the operator and read one character of input.
    AskOperator { labels: Vec<String> },
    /// Apply `labels` to the issue through the tracker.
    ApplyLabels { owner: String, name: String, issue_number: u64, labels: Vec<String> },
    /// A call failed earlier; the run is aborted and nothing more may
    /// be done.
    Halted,
    /// Every issue was handled.
    Finished,
}

/// Mathematical image of a `Command`.
#[verifier::ext_equal]
pub enum CommandView {
    QueryModel { issue_number: u64, prompt: Seq<char> },
    AskOperator { labels: Seq<Seq<char>> },
    ApplyLabels { owner: Seq<char>, name: Seq<char>, issue_number: u64, labels: Seq<Seq<char>> },
    Halted,
    Finished,
}

impl View for Command {
    type V = CommandView;

    open spec fn view(&self) -> CommandView {
        match self {
            Command::QueryModel { issue_number, prompt } => (CommandView::QueryModel {
                issue_number: *issue_number,
                prompt: prompt@,
            }),
            Command::AskOperator { labels } => (CommandView::AskOperator {
                labels: labels.deep_view(),
            }),
            Command::ApplyLabels { owner, name, issue_number, labels } => (CommandView::ApplyLabels {
                owner: owner@,
                name: name@,
                issue_number: *issue_number,
                labels: labels.deep_view(),
            }),
            Command::Halted => CommandView::Halted,
            Command::Finished => CommandView::Finished,
        }
    }
}

/// The reported outcome of one issue.
pub enum Report {
    /// The model suggested no labels; nothing was applied.
    NoLabels { issue_number: u64 },
    /// The operator declined; nothing was applied.
    Skipped { issue_number: u64 },
    /// `labels` were applied to the issue.
    Applied { issue_number: u64, labels: Vec<String> },
}

/// Mathematical image of a `Report`.
#[verifier::ext_equal]
pub enum ReportView {
    NoLabels { issue_number: u64 },
    Skipped { issue_number: u64 },
    Applied { issue_number: u64, labels: Seq<Seq<char>> },
}

impl View for Report {
    type V = ReportView;

    open spec fn view(&self) -> ReportView {
        match self {
            Report::NoLabels { issue_number } => (ReportView::NoLabels {
                issue_number: *issue_number,
            }),
            Report::Skipped { issue_number } => (ReportView::Skipped {
                issue_number: *issue_number,
            }),
            Report::Applied { issue_number, labels } => (ReportView::Applied {
                issue_number: *issue_number,
                labels: labels.deep_view(),
            }),
        }
    }
}

impl DeepView for Report {
    type V = ReportView;

    open spec fn deep_view(&self) -> ReportView {
        self.view()
    }
}

/// The orchestrator of one triage run.
pub struct Triage {
    /// The run configuration, read-only for the whole run.
    pub config: Config,
    /// Whether an operator confirmation is required before labels are
    /// applied.
    pub confirm_mode: bool,
    /// The issues to triage, pull requests already excluded.
    pub issues: Vec<Issue>,
    /// How many issues are finished.
    pub idx: usize,
    /// Where the orchestrator stands within the current issue.
    pub phase: Phase,
    /// Whether a failed call aborted the run.
    pub halted: bool,
}

/// Mathematical image of a `Triage`.
#[verifier::ext_equal]
pub struct TriageView {
    pub config: ConfigView,
    pub confirm_mode: bool,
    pub issues: Seq<IssueView>,
    pub idx: int,
    pub phase: PhaseView,
    pub halted: bool,
}

impl View for Triage {
    type V = TriageView;

    open spec fn view(&self) -> TriageView {
        TriageView {
            config: self.config@,
            confirm_mode: self.confirm_mode,
            issues: self.issues.deep_view(),
            idx: self.idx as int,
            phase: self.phase@,
            halted: self.halted,
        }
    }
}

impl TriageView {
    /// The orchestrator's invariant: the cursor stays in range, every
    /// held issue is a genuine issue (never a pull request), and a
    /// suggested label set awaiting confirmation or application is
    /// non-empty and belongs to an issue still in range.
    pub open spec fn wf(self) -> bool {
        &&& 0 <= self.idx <= self.issues.len()
        &&& forall|k: int| 0 <= k < self.issues.len() ==> is_triagable(#[trigger] self.issues[k])
        &&& match self.phase {
            PhaseView::AwaitModel => true,
            PhaseView::AwaitConfirm { labels } => self.idx < self.issues.len() && labels.len()
                > 0,
            PhaseView::AwaitApply { labels } => self.idx < self.issues.len() && labels.len() > 0,
        }
    }
}

/// What a well-formed orchestrator asks for next: nothing once halted,
/// nothing once every issue is finished, else the step the current
/// phase calls for.
pub open spec fn spec_next_command(m: TriageView) -> CommandView {
    if m.halted {
        CommandView::Halted
    } else if m.idx >= m.issues.len() {
        CommandView::Finished
    } else {
        match m.phase {
            PhaseView::AwaitModel => (CommandView::QueryModel {
                issue_number: m.issues[m.idx].number,
                prompt: prompt_spec(m.issues[m.idx], m.config),
            }),
            PhaseView::AwaitConfirm { labels } => (CommandView::AskOperator { labels }),
            PhaseView::AwaitApply { labels } => (CommandView::ApplyLabels {
                owner: m.config.repository.owner,
                name: m.config.repository.name,
                issue_number: m.issues[m.idx].number,
                labels,
            }),
        }
    }
}

/// The state after the model answered `text`: an empty parse finishes
/// the issue, else the labels move on to confirmation (or straight to
/// application when confirmation is off).
pub open spec fn step_response(m: TriageView, text: Seq<char>) -> TriageView {
    let labels = parse_spec(text);
    if labels.len() == 0 {
        TriageView { idx: m.idx + 1, phase: PhaseView::AwaitModel, ..m }
    } else if m.confirm_mode {
        TriageView { phase: PhaseView::AwaitConfirm { labels }, ..m }
    } else {
        TriageView { phase: PhaseView::AwaitApply { labels }, ..m }
    }
}

/// What the model's answer `text` has the orchestrator report: "no
/// labels" when the parse is empty, else nothing yet.
pub open spec fn report_response(m: TriageView, text: Seq<char>) -> Option<ReportView> {
    if parse_spec(text).len() == 0 {
        Some(ReportView::NoLabels { issue_number: m.issues[m.idx].number })
    } else {
        None
    }
}

/// The state after a failed model call: the run is halted.
pub open spec fn step_failure(m: TriageView) -> TriageView {
    TriageView { halted: true, ..m }
}

/// The state after the operator typed `input`: approval sends the
/// suggested labels on to application, anything else skips the issue.
pub open spec fn step_confirmation(m: TriageView, input: char) -> TriageView {
    match m.phase {
        PhaseView::AwaitConfirm { labels } => {
            if approves(input) {
                TriageView { phase: PhaseView::AwaitApply { labels }, ..m }
            } else {
                TriageView { idx: m.idx + 1, phase: PhaseView::AwaitModel, ..m }
            }
        },
        _ => m,
    }
}

/// What the operator's input has the orchestrator report: "skipped"
/// on a decline, nothing on an approval.
pub open spec fn report_confirmation(m: TriageView, input: char) -> Option<ReportView> {
    match m.phase {
        PhaseView::AwaitConfirm { labels } => {
            if approves(input) {
                None
            } else {
                Some(ReportView::Skipped { issue_number: m.issues[m.idx].number })
            }
        },
        _ => None,
    }
}

/// The state after the tracker answered an application: success
/// finishes the issue, failure halts the run.
pub open spec fn step_apply(m: TriageView, ok: bool) -> TriageView {
    match m.phase {
        PhaseView::AwaitApply { labels } => {
            if ok {
                TriageView { idx: m.idx + 1, phase: PhaseView::AwaitModel, ..m }
            } else {
                TriageView { halted: true, ..m }
            }
        },
        _ => m,
    }
}

/// What the tracker's answer has the orchestrator report: the applied
/// labels on success, nothing on the failure that halts the run.
pub open spec fn report_apply(m: TriageView, ok: bool) -> Option<ReportView> {
    match m.phase {
        PhaseView::AwaitApply { labels } => {
            if ok {
                Some(
                    ReportView::Applied {
                        issue_number: m.issues[m.idx].number,
                        labels,
                    },
                )
            } else {
                None
            }
        },
        _ => None,
    }
}

/// Clones a label set; the copy holds the same texts in the same
/// order.
fn clone_labels(labels: &Vec<String>) -> (r: Vec<String>)
    ensures
        r.deep_view() == labels.deep_view(),
{
    let n = labels.len();
    let mut r: Vec<String> = Vec::new();
    let mut k: usize = 0;
    while k < n
        invariant
            n == labels.len(),
            k <= n,
            r.deep_view() == labels.deep_view().subrange(0, k as int),
        decreases n - k,
    {
        let ghost prev = r.deep_view();
        r.push(labels[k].clone());
        proof {
            assert(r.deep_view() =~= prev.push(labels.deep_view()[k as int]));
            assert(r.deep_view() =~= labels.deep_view().subrange(0, k + 1int));
        }
        k += 1;
    }
    proof {
        assert(labels.deep_view().subrange(0, n as int) =~= labels.deep_view());
    }
    r
}

impl Triage {
    /// Starts a run over the issues the tracker listed.  Pull requests
    /// are excluded here, at the collaborator boundary: the pipeline
    /// never sees them.
    pub fn new(config: Config, issues: Vec<Issue>, confirm_mode: bool) -> (t: Triage)
        ensures
            t@.wf(),
            t@.config == config@,
            t@.confirm_mode == confirm_mode,
            t@.issues == triagable_only(issues.deep_view()),
            t@.idx == 0,
            t@.phase == PhaseView::AwaitModel,
            !t@.halted,
    {
        let kept = filter_issues(issues);
        proof {
            crate::issue::lemma_triagable_only_is_triagable(issues.deep_view());
        }
        Triage {
            config,
            confirm_mode,
            issues: kept,
            idx: 0,
            phase: Phase::AwaitModel,
            halted: false,
        }
    }

    /// Says what the surroundings should do next.
    pub fn next_command(&self) -> (c: Command)
        ensures
            c@ == spec_next_command(self@),
    {
        if self.halted {
            return Command::Halted;
        }
        if self.idx >= self.issues.len() {
            return Command::Finished;
        }
        match &self.phase {
            Phase::AwaitModel => {
                let prompt = build_prompt(&self.issues[self.idx], &self.config);
                Command::QueryModel { issue_number: self.issues[self.idx].number, prompt }
            },
            Phase::AwaitConfirm { labels } => (Command::AskOperator {
                labels: clone_labels(labels),
            }),
            Phase::AwaitApply { labels } => (Command::ApplyLabels {
                owner: self.config.repository.owner.clone(),
                name: self.config.repository.name.clone(),
                issue_number: self.issues[self.idx].number,
                labels: clone_labels(labels),
            }),
        }
    }

    /// Folds the model's answer into the state and reports "no labels"
    /// when the issue is finished by an empty suggestion.
    pub fn on_model_response(&mut self, text: &str) -> (r: Option<Report>)
        requires
            old(self)@.wf(),
            !old(self)@.halted,
            old(self)@.phase == PhaseView::AwaitModel,
            old(self)@.idx < old(self)@.issues.len(),
        ensures
            final(self)@.wf(),
            final(self)@ == step_response(old(self)@, text@),
            r.deep_view() == report_response(old(self)@, text@),
    {
        let labels = parse_response(text);
        if labels.len() == 0 {
            let n = self.issues.len();
            let num = self.issues[self.idx].number;
            self.idx = self.idx + 1;
            proof {
                assert(self@ =~= step_response(old(self)@, text@));
            }
            Some(Report::NoLabels { issue_number: num })
        } else if self.confirm_mode {
            self.phase = Phase::AwaitConfirm { labels };
            proof {
                assert(self@ =~= step_response(old(self)@, text@));
            }
            None
        } else {
            self.phase = Phase::AwaitApply { labels };
            proof {
                assert(self@ =~= step_response(old(self)@, text@));
            }
            None
        }
    }

    /// Records that the model call failed: the whole run halts, and no
    /// further issue will be prompted or labeled.
    pub fn on_model_failure(&mut self)
        requires
            old(self)@.wf(),
        ensures
            final(self)@.wf(),
            final(self)@ == step_failure(old(self)@),
    {
        self.halted = true;
        proof {
            assert(self@ =~= step_failure(old(self)@));
        }
    }

    /// Folds one character of operator input into the state and
    /// reports "skipped" on a decline.
    pub fn on_confirmation(&mut self, input: char) -> (r: Option<Report>)
        requires
            old(self)@.wf(),
            !old(self)@.halted,
            old(self)@.phase is AwaitConfirm,
        ensures
            final(self)@.wf(),
            final(self)@ == step_confirmation(old(self)@, input),
            r.deep_view() == report_confirmation(old(self)@, input),
    {
        let yes = is_affirmative(input);
        if yes {
            let labels = match &self.phase {
                Phase::AwaitConfirm { labels } => clone_labels(labels),
                _ => Vec::new(),
            };
            self.phase = Phase::AwaitApply { labels };
            proof {
                assert(self@ =~= step_confirmation(old(self)@, input));
            }
            None
        } else {
            let n = self.issues.len();
            let num = self.issues[self.idx].number;
            self.phase = Phase::AwaitModel;
            self.idx = self.idx + 1;
            proof {
                assert(self@ =~= step_confirmation(old(self)@, input));
            }
            Some(Report::Skipped { issue_number: num })
        }
    }

    /// Folds the tracker's answer to an application into the state:
    /// reports the applied labels on success, halts the run on
    /// failure.
    pub fn on_apply_result(&mut self, ok: bool) -> (r: Option<Report>)
        requires
            old(self)@.wf(),
            !old(self)@.halted,
            old(self)@.phase is AwaitApply,
        ensures
            final(self)@.wf(),
            final(self)@ == step_apply(old(self)@, ok),
            r.deep_view() == report_apply(old(self)@, ok),
    {
        if ok {
            let labels = match &self.phase {
                Phase::AwaitApply { labels } => clone_labels(labels),
                _ => Vec::new(),
            };
            let n = self.issues.len();
            let num = self.issues[self.idx].number;
            self.phase = Phase::AwaitModel;
            self.idx = self.idx + 1;
            proof {
                assert(self@ =~= step_apply(old(self)@, ok));
            }
            Some(Report::Applied { issue_number: num, labels })
        } else {
            self.halted = true;
            proof {
                assert(self@ =~= step_apply(old(self)@, ok));
            }
            None
        }
    }
}

/// A well-formed orchestrator never points the pipeline at a pull
/// request: whatever stands at or after the cursor is a genuine issue,
/// and in particular a request to query the model always concerns one.
pub proof fn lemma_never_touches_pull_request(m: TriageView)
    requires
        m.wf(),
    ensures
        forall|k: int| 0 <= k < m.issues.len() ==> is_triagable(#[trigger] m.issues[k]),
        spec_next_command(m) is QueryModel ==> is_triagable(m.issues[m.idx]),
        spec_next_command(m) is ApplyLabels ==> is_triagable(m.issues[m.idx]),
{
}

/// A failed label application halts the run at once: the orchestrator's
/// next command is `Halted`, so the following issue is never prompted.
pub proof fn lemma_fail_fast(m: TriageView, ok: bool)
    requires
        m.phase is AwaitApply,
        !ok,
    ensures
        step_apply(m, ok).halted,
        spec_next_command(step_apply(m, ok)) is Halted,
{
}

/// Halting is final: no later event revives a halted run, and a halted
/// run never issues another command — in particular, no further issue
/// is ever prompted or labeled.
pub proof fn lemma_halted_is_final(m: TriageView, text: Seq<char>, input: char, ok: bool)
    requires
        m.halted,
    ensures
        spec_next_command(m) is Halted,
        step_response(m, text).halted,
        step_failure(m).halted,
        step_confirmation(m, input).halted,
        step_apply(m, ok).halted,
{
}

} // verus!
