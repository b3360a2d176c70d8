//! The run pipeline: from a raw configuration, a hook name, the file
//! context and the skip toggle to the dispatch plan. The caller spawns the
//! planned commands concurrently, collects one outcome per planned action,
//! and renders the report with `render_report`.
use vstd::prelude::*;

use crate::config::ConfigError;
use crate::config::HookModel;
use crate::config::RawConfig;
use crate::config::action_ok;
use crate::config::config_ok;
use crate::config::names_first_invalid;
use crate::config::normalize;
use crate::config::spec_normalize;
use crate::git::Files;
use crate::git::FilesModel;
use crate::report::OutcomeModel;
use crate::report::spec_has_errors;
use crate::report::spec_result_lines;
use crate::select::PlannedAction;
use crate::select::PlannedModel;
use crate::select::lemma_find_hook_props;
use crate::select::plan_actions;
use crate::select::select;
use crate::select::spec_find_hook;
use crate::select::spec_plan;
use crate::select::spec_select;

verus! {

/// Invocation of a named hook: the hook name, an optional explicit path to
/// the configuration, and trailing pass-through arguments.
#[derive(Debug)]
pub struct Run {
    /// name of the hook to run
    pub hook: String,
    /// explicit path to the configuration file, where one was given
    pub config: Option<String>,
    /// any additional arguments that came after the invocation
    pub args: Vec<String>,
}

/// The dispatch plan of one run: normalize the configuration, select the
/// hook's actions, and plan them against the file context. With the skip
/// toggle set nothing is planned, whatever the configuration holds; a
/// configuration with a bad pattern aborts the run before any action.
pub fn exec_plan(hook: &str, raw: &RawConfig, files: &Files, skip: bool) -> (r: Result<
    Vec<PlannedAction>,
    ConfigError,
>)
    ensures
        r is Ok <==> config_ok(spec_normalize(raw@)),
        match r {
            Ok(plan) => plan.deep_view() == if skip {
                Seq::<PlannedModel>::empty()
            } else {
                spec_plan(spec_select(spec_normalize(raw@), hook@), files@)
            },
            Err(e) => names_first_invalid(e, spec_normalize(raw@)),
        },
{
    let mut config = match normalize(raw) {
        Ok(c) => c,
        Err(e) => {
            return Err(e);
        },
    };
    if skip {
        let empty: Vec<PlannedAction> = Vec::new();
        proof {
            assert(empty.deep_view() =~= Seq::<PlannedModel>::empty());
        }
        return Ok(empty);
    }
    let selected = select(hook, &mut config);
    proof {
        let nc = spec_normalize(raw@);
        lemma_find_hook_props(nc, hook@);
        let at = spec_find_hook(nc, hook@);
        if at != -1 {
            assert forall|k: int|
                0 <= k < selected.deep_view().len() implies action_ok(
                (#[trigger] selected.deep_view()[k]).action,
            ) by {
                assert(selected.deep_view()[k] == nc[at].actions[k]);
                assert(action_ok(nc[at].actions[k].action));
            }
        }
    }
    let planned = plan_actions(&selected, files);
    Ok(planned)
}

/// A hook absent from the configuration, or present with an empty action
/// map, plans nothing; a run that dispatches nothing collects no outcomes,
/// reports no action line, and reports no error.
pub proof fn lemma_missing_hook_is_clean_run(c: Seq<HookModel>, hook: Seq<char>, f: FilesModel)
    requires
        spec_find_hook(c, hook) == -1 || spec_select(c, hook).len() == 0,
    ensures
        spec_plan(spec_select(c, hook), f).len() == 0,
        spec_result_lines(Seq::<OutcomeModel>::empty()).len() == 0,
        !spec_has_errors(Seq::<OutcomeModel>::empty()),
{
}

} // verus!
