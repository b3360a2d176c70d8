//! Result aggregation and report rendering: per-action pass/fail lines in
//! selection order, captured output, a completion line with the run's total
//! time, and the bypass hint for hooks that support a verification-skip
//! flag.
use vstd::prelude::*;
use vstd::string::StrSliceExecFns;
use vstd::string::StringExecFns;

use crate::config::Action;
use crate::config::ActionModel;
use crate::duration::format_duration;
use crate::duration::spec_duration;
use crate::git::is_noverify_hook;
use crate::git::spec_noverify;

verus! {

/// Result of one executed action: created when the execution completes,
/// consumed by the reporter.
#[derive(Debug)]
pub struct ActionResult {
    /// the action id it was declared under
    pub id: String,
    /// the action that ran
    pub action: Action,
    /// the exit code, or nothing when the command terminated abnormally
    pub code: Option<i32>,
    /// captured standard output
    pub stdout: String,
    /// captured error output
    pub stderr: String,
    /// elapsed time in milliseconds
    pub elapsed_ms: u64,
}

/// Mathematical model of an `ActionResult`.
pub ghost struct ResultModel {
    /// model of `ActionResult::id`
    pub id: Seq<char>,
    /// model of `ActionResult::action`
    pub action: ActionModel,
    /// model of `ActionResult::code`
    pub code: Option<int>,
    /// model of `ActionResult::stdout`
    pub stdout: Seq<char>,
    /// model of `ActionResult::stderr`
    pub stderr: Seq<char>,
    /// model of `ActionResult::elapsed_ms`
    pub elapsed_ms: nat,
}

impl View for ActionResult {
    type V = ResultModel;

    open spec fn view(&self) -> ResultModel {
        ResultModel {
            id: self.id@,
            action: self.action@,
            code: match self.code {
                Some(c) => Some(c as int),
                None => None,
            },
            stdout: self.stdout@,
            stderr: self.stderr@,
            elapsed_ms: self.elapsed_ms as nat,
        }
    }
}

/// The action failed: it exited with a nonzero code, or it terminated
/// abnormally and reports no code at all.
pub open spec fn spec_failed(r: ResultModel) -> bool {
    match r.code {
        Some(c) => c != 0,
        None => true,
    }
}

impl ActionResult {
    /// Whether this result counts as failed.
    pub fn failed(&self) -> (r: bool)
        ensures
            r == spec_failed(self@),
    {
        match self.code {
            Some(c) => c != 0,
            None => true,
        }
    }
}

/// What one dispatched action came back with: a result, or a spawn-level
/// error carrying its message.
#[derive(Debug)]
pub enum ActionOutcome {
    /// the spawn succeeded and the command ran to completion
    Completed(ActionResult),
    /// the child process could not be started
    SpawnFailed(String),
}

/// Mathematical model of an `ActionOutcome`.
pub ghost enum OutcomeModel {
    /// model of `ActionOutcome::Completed`
    Completed(ResultModel),
    /// model of `ActionOutcome::SpawnFailed`
    SpawnFailed(Seq<char>),
}

impl View for ActionOutcome {
    type V = OutcomeModel;

    open spec fn view(&self) -> OutcomeModel {
        match self {
            ActionOutcome::Completed(r) => OutcomeModel::Completed(r@),
            ActionOutcome::SpawnFailed(m) => OutcomeModel::SpawnFailed(m@),
        }
    }
}

impl DeepView for ActionOutcome {
    type V = OutcomeModel;

    open spec fn deep_view(&self) -> OutcomeModel {
        self@
    }
}

/// The outcome counts toward "has errors": a failed result or a spawn
/// error.
pub open spec fn outcome_is_error(o: OutcomeModel) -> bool {
    match o {
        OutcomeModel::Completed(r) => spec_failed(r),
        OutcomeModel::SpawnFailed(_) => true,
    }
}

/// Some outcome of the run counts as an error.
pub open spec fn spec_has_errors(os: Seq<OutcomeModel>) -> bool {
    exists|i: int| 0 <= i < os.len() && outcome_is_error(#[trigger] os[i])
}

/// Whether any outcome of the run counts as an error.
pub fn has_errors(outcomes: &Vec<ActionOutcome>) -> (r: bool)
    ensures
        r == spec_has_errors(outcomes.deep_view()),
{
    let ghost ov = outcomes.deep_view();
    let mut i: usize = 0;
    while i < outcomes.len()
        invariant
            ov == outcomes.deep_view(),
            i <= ov.len(),
            ov.len() == outcomes@.len(),
            forall|k: int| 0 <= k < i ==> !outcome_is_error(#[trigger] ov[k]),
        decreases ov.len() - i,
    {
        let err = match &outcomes[i] {
            ActionOutcome::Completed(res) => res.failed(),
            ActionOutcome::SpawnFailed(_) => true,
        };
        if err {
            proof {
                assert(outcome_is_error(ov[i as int]));
            }
            return true;
        }
        i += 1;
    }
    false
}

/// The display name of a result: the action's name where one was given,
/// else the action id.
pub open spec fn spec_display_name(name: Option<Seq<char>>, id: Seq<char>) -> Seq<char> {
    match name {
        Some(n) => n,
        None => id,
    }
}

/// The status line of a completed result: marker, verdict, display name and
/// elapsed time.
pub open spec fn spec_status_line(r: ResultModel) -> Seq<char> {
    (if spec_failed(r) {
        ("x failed ")@
    } else {
        ("+ passed ")@
    }) + spec_display_name(r.action.name, r.id) + (" (")@ + spec_duration(r.elapsed_ms, false)
        + (")")@
}

/// The report lines of one outcome: the status line, then the captured
/// error output if the action failed and that output is non-empty, then the
/// captured standard output if non-empty; a spawn error is one distinct
/// line.
pub open spec fn spec_outcome_lines(o: OutcomeModel) -> Seq<Seq<char>> {
    match o {
        OutcomeModel::Completed(r) => {
            let head = if spec_failed(r) && r.stderr.len() > 0 {
                seq![spec_status_line(r), r.stderr]
            } else {
                seq![spec_status_line(r)]
            };
            if r.stdout.len() > 0 {
                head + seq![r.stdout]
            } else {
                head
            }
        },
        OutcomeModel::SpawnFailed(msg) => seq![("error executing action ")@ + msg],
    }
}

/// The report lines of all outcomes, in selection order.
pub open spec fn spec_result_lines(os: Seq<OutcomeModel>) -> Seq<Seq<char>>
    decreases os.len(),
{
    if os.len() == 0 {
        Seq::empty()
    } else {
        spec_result_lines(os.drop_last()) + spec_outcome_lines(os.last())
    }
}

/// The completion line of a run: the hook name and the total elapsed time.
pub open spec fn spec_complete_line(hook: Seq<char>, total_ms: nat) -> Seq<char> {
    ("> ")@ + hook + (" complete (")@ + spec_duration(total_ms, false) + (")")@
}

/// The whole report of a run: every outcome's lines in selection order, the
/// completion line, and the bypass hint when something failed and the hook
/// supports the verification-skip flag.
pub open spec fn spec_report(os: Seq<OutcomeModel>, hook: Seq<char>, total_ms: nat) -> Seq<
    Seq<char>,
> {
    spec_result_lines(os) + seq![spec_complete_line(hook, total_ms)] + if spec_has_errors(os)
        && spec_noverify(hook) {
        seq![("add --no-verify to bypass")@]
    } else {
        Seq::empty()
    }
}

/// The status line of a completed result.
fn status_line(res: &ActionResult) -> (r: String)
    ensures
        r@ == spec_status_line(res@),
{
    let failed = res.failed();
    let mut out = if failed {
        String::from_str("x failed ")
    } else {
        String::from_str("+ passed ")
    };
    let ghost head = out@;
    match &res.action.name {
        Some(n) => out.append(n.as_str()),
        None => out.append(res.id.as_str()),
    }
    let ghost named = out@;
    out.append(" (");
    let dur = format_duration(res.elapsed_ms, false);
    out.append(dur.as_str());
    out.append(")");
    proof {
        assert(named == head + spec_display_name(res@.action.name, res@.id));
        assert(out@ =~= head + spec_display_name(res@.action.name, res@.id) + (" (")@
            + spec_duration(res@.elapsed_ms, false) + (")")@);
    }
    out
}

/// The report lines of one outcome.
fn outcome_lines(o: &ActionOutcome) -> (r: Vec<String>)
    ensures
        r.deep_view() == spec_outcome_lines(o@),
{
    let mut out: Vec<String> = Vec::new();
    match o {
        ActionOutcome::Completed(res) => {
            let line = status_line(res);
            let ghost lm = line@;
            out.push(line);
            if res.failed() && !res.stderr.as_str().is_empty() {
                out.push(res.stderr.clone());
            }
            if !res.stdout.as_str().is_empty() {
                out.push(res.stdout.clone());
            }
            proof {
                let m = res@;
                if spec_failed(m) && m.stderr.len() > 0 {
                    if m.stdout.len() > 0 {
                        assert(out.deep_view() =~= seq![lm, m.stderr, m.stdout]);
                        assert(spec_outcome_lines(o@) =~= seq![lm, m.stderr, m.stdout]);
                    } else {
                        assert(out.deep_view() =~= seq![lm, m.stderr]);
                        assert(spec_outcome_lines(o@) =~= seq![lm, m.stderr]);
                    }
                } else {
                    if m.stdout.len() > 0 {
                        assert(out.deep_view() =~= seq![lm, m.stdout]);
                        assert(spec_outcome_lines(o@) =~= seq![lm, m.stdout]);
                    } else {
                        assert(out.deep_view() =~= seq![lm]);
                        assert(spec_outcome_lines(o@) =~= seq![lm]);
                    }
                }
            }
        },
        ActionOutcome::SpawnFailed(msg) => {
            let mut line = String::from_str("error executing action ");
            line.append(msg.as_str());
            let ghost lm = line@;
            out.push(line);
            proof {
                assert(out.deep_view() =~= seq![lm]);
                assert(spec_outcome_lines(o@) =~= seq![lm]);
            }
        },
    }
    out
}

/// Render the whole report of a run, in selection order, with the
/// completion line and, where owed, the bypass hint.
pub fn render_report(outcomes: &Vec<ActionOutcome>, hook: &str, total_ms: u64) -> (r: Vec<
    String,
>)
    ensures
        r.deep_view() == spec_report(outcomes.deep_view(), hook@, total_ms as nat),
{
    let ghost ov = outcomes.deep_view();
    let mut out: Vec<String> = Vec::new();
    let mut i: usize = 0;
    proof {
        assert(ov.take(0) =~= Seq::<OutcomeModel>::empty());
        assert(out.deep_view() =~= spec_result_lines(ov.take(0)));
    }
    while i < outcomes.len()
        invariant
            ov == outcomes.deep_view(),
            i <= ov.len(),
            ov.len() == outcomes@.len(),
            out.deep_view() == spec_result_lines(ov.take(i as int)),
        decreases ov.len() - i,
    {
        let mut lines = outcome_lines(&outcomes[i]);
        let ghost lv = lines.deep_view();
        let ghost pv = out@;
        let ghost plv = lines@;
        out.append(&mut lines);
        proof {
            assert(ov.take(i + 1).drop_last() =~= ov.take(i as int));
            assert(ov.take(i + 1).last() == ov[i as int]);
            assert(out@.len() == pv.len() + plv.len());
            assert forall|k: int|
                0 <= k < out@.len() implies #[trigger] out@[k]@ == (spec_result_lines(
                ov.take(i as int),
            ) + lv)[k] by {
                if k < pv.len() {
                    assert(out@[k] == pv[k]);
                } else {
                    assert(out@[k] == plv[k - pv.len()]);
                    assert(plv[k - pv.len()]@ == lv[k - pv.len()]);
                }
            }
            assert(out.deep_view() =~= spec_result_lines(ov.take(i as int)) + lv);
            assert(spec_result_lines(ov.take(i + 1)) == spec_result_lines(ov.take(i as int))
                + spec_outcome_lines(ov[i as int]));
        }
        i += 1;
    }
    proof {
        assert(ov.take(ov.len() as int) =~= ov);
    }
    let mut complete = String::from_str("> ");
    complete.append(hook);
    complete.append(" complete (");
    let dur = format_duration(total_ms, false);
    complete.append(dur.as_str());
    complete.append(")");
    let ghost cm = complete@;
    proof {
        assert(cm =~= spec_complete_line(hook@, total_ms as nat));
    }
    let ghost before = out.deep_view();
    out.push(complete);
    proof {
        assert(out.deep_view() =~= before + seq![spec_complete_line(hook@, total_ms as nat)]);
    }
    let errs = has_errors(outcomes);
    if errs && is_noverify_hook(hook) {
        let ghost with_complete = out.deep_view();
        out.push(String::from_str("add --no-verify to bypass"));
        proof {
            assert(out.deep_view() =~= with_complete + seq![("add --no-verify to bypass")@]);
            assert(out.deep_view() =~= spec_report(ov, hook@, total_ms as nat));
        }
    } else {
        proof {
            assert(out.deep_view() =~= spec_report(ov, hook@, total_ms as nat));
        }
    }
    out
}

/// The line announcing the run of a hook.
pub fn running_line(hook: &str) -> (r: String)
    ensures
        r@ == ("> Running ")@ + hook@,
{
    let mut out = String::from_str("> Running ");
    out.append(hook);
    out
}

/// The line announcing the dispatch of one action, under its display name.
pub fn executing_line(id: &str, name: &Option<String>) -> (r: String)
    ensures
        r@ == ("  > Executing ")@ + spec_display_name(name.deep_view(), id@),
{
    let mut out = String::from_str("  > Executing ");
    match name {
        Some(n) => out.append(n.as_str()),
        None => out.append(id),
    }
    out
}

} // verus!
