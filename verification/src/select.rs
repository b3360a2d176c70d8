//! Action selection: for a given hook, the applicable action set in declared
//! order; per action, the filtered file list it operates on, chosen by the
//! placeholders of its command; and the final command with every placeholder
//! substituted.
use vstd::prelude::*;

use crate::config::Action;
use crate::config::ActionEntry;
use crate::config::ActionModel;
use crate::config::Config;
use crate::config::EntryModel;
use crate::config::HookModel;
use crate::config::action_ok;
use crate::config::clone_action;
use crate::git::Files;
use crate::git::FilesModel;
use crate::pattern::glob_match;
use crate::pattern::glob_matches;
use crate::text::contains_seq;
use crate::text::contains_sub;
use crate::text::join_seq;
use crate::text::join_spaces;
use crate::text::replace_all;
use crate::text::replace_seq;
use crate::text::str_eq;

verus! {

/// A path passes the action's filters: it matches the inclusion pattern if
/// one is present, and does not match the exclusion pattern if one is
/// present.
pub open spec fn spec_keeps(a: ActionModel, path: Seq<char>) -> bool {
    &&& match a.incl {
        Some(p) => glob_matches(p, path),
        None => true,
    }
    &&& match a.exclude {
        Some(p) => !glob_matches(p, path),
        None => true,
    }
}

/// The base file sequence the action's command selects: the staged set if
/// `{staged_files}` occurs in the command, else the push set if
/// `{push_files}` occurs, else all tracked files. First match wins, in that
/// fixed order.
pub open spec fn spec_base(a: ActionModel, f: FilesModel) -> Seq<Seq<char>> {
    if contains_seq(a.run, ("{staged_files}")@) {
        f.staged
    } else if contains_seq(a.run, ("{push_files}")@) {
        f.push
    } else {
        f.ls
    }
}

/// The filtered file list the action operates on: the base sequence with
/// the action's filters applied, in base order.
pub open spec fn spec_applicable(a: ActionModel, f: FilesModel) -> Seq<Seq<char>> {
    spec_base(a, f).filter(|p: Seq<char>| spec_keeps(a, p))
}

/// Whether `path` passes the filters of `action`.
fn keeps(action: &Action, path: &String) -> (r: bool)
    requires
        action_ok(action@),
    ensures
        r == spec_keeps(action@, path@),
{
    let ok_incl = match &action.incl {
        Some(p) => glob_match(p.as_str(), path.as_str()),
        None => true,
    };
    let ok_excl = match &action.exclude {
        Some(p) => !glob_match(p.as_str(), path.as_str()),
        None => true,
    };
    ok_incl && ok_excl
}

/// The filtered file list `action` operates on within the context `files`,
/// as `spec_applicable` says: filtering is a pure function of the action and
/// the context.
pub fn applicable_files(action: &Action, files: &Files) -> (r: Vec<String>)
    requires
        action_ok(action@),
    ensures
        r.deep_view() == spec_applicable(action@, files@),
{
    let ghost pred = |p: Seq<char>| spec_keeps(action@, p);
    let base: &Vec<String> = if contains_sub(action.run.as_str(), "{staged_files}") {
        &files.staged
    } else if contains_sub(action.run.as_str(), "{push_files}") {
        &files.push
    } else {
        &files.ls
    };
    proof {
        assert(base.deep_view() == spec_base(action@, files@));
    }
    let ghost bv = base.deep_view();
    let mut out: Vec<String> = Vec::new();
    let mut i: usize = 0;
    proof {
        reveal(Seq::filter);
        assert(bv.take(0) =~= Seq::<Seq<char>>::empty());
        assert(out.deep_view() =~= bv.take(0).filter(pred));
    }
    while i < base.len()
        invariant
            action_ok(action@),
            pred == (|p: Seq<char>| spec_keeps(action@, p)),
            bv == base.deep_view(),
            i <= bv.len(),
            bv.len() == base@.len(),
            out.deep_view() == bv.take(i as int).filter(pred),
        decreases bv.len() - i,
    {
        let keep = keeps(action, &base[i]);
        let ghost pv = out@;
        if keep {
            out.push(base[i].clone());
        }
        proof {
            reveal(Seq::filter);
            assert(bv.take(i + 1).drop_last() =~= bv.take(i as int));
            assert(bv.take(i + 1).last() == bv[i as int]);
            if keep {
                assert(out@.len() == pv.len() + 1);
                assert(out@[pv.len() as int]@ == bv[i as int]);
                assert forall|k: int| 0 <= k < pv.len() implies #[trigger] out@[k]@ == bv.take(
                    i as int,
                ).filter(pred)[k] by {
                    assert(out@[k] == pv[k]);
                }
                assert(out.deep_view() =~= bv.take(i as int).filter(pred).push(bv[i as int]));
                assert(bv.take(i + 1).filter(pred) == bv.take(i as int).filter(pred).push(
                    bv[i as int],
                ));
            } else {
                assert(bv.take(i + 1).filter(pred) == bv.take(i as int).filter(pred));
            }
        }
        i += 1;
    }
    proof {
        assert(bv.take(bv.len() as int) =~= bv);
    }
    out
}

/// The pattern filter is a pure predicate: applying the selection to the
/// same action and the same context twice yields identical file lists, with
/// no hidden state.
pub proof fn lemma_applicable_files_pure(
    a: ActionModel,
    f: FilesModel,
    r1: Seq<Seq<char>>,
    r2: Seq<Seq<char>>,
)
    requires
        r1 == spec_applicable(a, f),
        r2 == spec_applicable(a, f),
    ensures
        r1 == r2,
{
}

/// Placeholder precedence: a command holding `{staged_files}` takes the
/// staged set as its base, whatever else it holds.
pub proof fn lemma_placeholder_precedence(a: ActionModel, f: FilesModel)
    requires
        contains_seq(a.run, ("{staged_files}")@),
    ensures
        spec_base(a, f) == f.staged,
{
}

/// The position of the first hook of `c` named `name`, or `-1` when none is.
pub open spec fn spec_find_hook(c: Seq<HookModel>, name: Seq<char>) -> int
    decreases c.len(),
{
    if c.len() == 0 {
        -1
    } else if c[0].name == name {
        0
    } else {
        let r = spec_find_hook(c.drop_first(), name);
        if r == -1 {
            -1
        } else {
            r + 1
        }
    }
}

/// `spec_find_hook` finds exactly the first hook of that name: `-1` means
/// no hook of `c` is named `name`; otherwise the found position holds the
/// name and every earlier position does not.
pub proof fn lemma_find_hook_props(c: Seq<HookModel>, name: Seq<char>)
    ensures
        ({
            let r = spec_find_hook(c, name);
            &&& r == -1 <==> (forall|k: int| 0 <= k < c.len() ==> (#[trigger] c[k].name) != name)
            &&& r != -1 ==> 0 <= r < c.len() && c[r].name == name && (forall|k: int|
                0 <= k < r ==> (#[trigger] c[k].name) != name)
        }),
    decreases c.len(),
{
    if c.len() > 0 && c[0].name != name {
        lemma_find_hook_props(c.drop_first(), name);
        let d = c.drop_first();
        let rd = spec_find_hook(d, name);
        let r = spec_find_hook(c, name);
        assert forall|k: int| 0 <= k < d.len() implies #[trigger] d[k] == c[k + 1] by {}
        if rd == -1 {
            assert forall|k: int| 0 <= k < c.len() implies (#[trigger] c[k].name) != name by {
                if k > 0 {
                    assert(d[k - 1] == c[k]);
                }
            }
        } else {
            assert(d[rd] == c[rd + 1]);
            assert(c[r].name == name);
            assert forall|k: int| 0 <= k < r implies (#[trigger] c[k].name) != name by {
                if k > 0 {
                    assert(d[k - 1] == c[k]);
                }
            }
        }
    }
}

/// The actions selected for `name`: those of the first hook of that name,
/// or none when no hook of `c` carries it.
pub open spec fn spec_select(c: Seq<HookModel>, name: Seq<char>) -> Seq<EntryModel> {
    let r = spec_find_hook(c, name);
    if r == -1 {
        Seq::empty()
    } else {
        c[r].actions
    }
}

/// The configuration after selection: the selected hook's entry is removed,
/// everything else keeps its order.
pub open spec fn spec_remove_hook(c: Seq<HookModel>, name: Seq<char>) -> Seq<HookModel> {
    let r = spec_find_hook(c, name);
    if r == -1 {
        c
    } else {
        c.remove(r)
    }
}

/// Select the actions of the hook named `hook` and consume that hook's
/// entry from the configuration; a hook that is absent selects nothing and
/// leaves the configuration unchanged.
pub fn select(hook: &str, config: &mut Config) -> (r: Vec<ActionEntry>)
    ensures
        r.deep_view() == spec_select(old(config)@, hook@),
        final(config)@ == spec_remove_hook(old(config)@, hook@),
{
    let ghost c0 = config@;
    proof {
        lemma_find_hook_props(c0, hook@);
    }
    let mut i: usize = 0;
    while i < config.hooks.len()
        invariant
            c0 == old(config)@,
            config@ == c0,
            c0 == config.hooks.deep_view(),
            i <= config.hooks@.len(),
            c0.len() == config.hooks@.len(),
            forall|k: int| 0 <= k < i ==> (#[trigger] c0[k].name) != hook@,
        decreases config.hooks@.len() - i,
    {
        if str_eq(config.hooks[i].name.as_str(), hook) {
            proof {
                lemma_find_hook_props(c0, hook@);
                assert(c0[i as int].name == hook@);
                assert(spec_find_hook(c0, hook@) == i as int);
            }
            let ghost pv = config.hooks@;
            let h = config.hooks.remove(i);
            proof {
                assert(h@ == c0[i as int]);
                assert(h.actions.deep_view() == c0[i as int].actions);
                assert forall|k: int| 0 <= k < config.hooks@.len() implies #[trigger] config.hooks@[
                    k
                ]@ == c0.remove(i as int)[k] by {
                    if k < i {
                        assert(config.hooks@[k] == pv[k]);
                        assert(pv[k]@ == c0[k]);
                        assert(c0.remove(i as int)[k] == c0[k]);
                    } else {
                        assert(config.hooks@[k] == pv[k + 1]);
                        assert(pv[k + 1]@ == c0[k + 1]);
                        assert(c0.remove(i as int)[k] == c0[k + 1]);
                    }
                }
                assert(config.hooks.deep_view() =~= c0.remove(i as int));
            }
            return h.actions;
        }
        i += 1;
    }
    proof {
        lemma_find_hook_props(c0, hook@);
        assert(spec_find_hook(c0, hook@) == -1);
    }
    let r: Vec<ActionEntry> = Vec::new();
    proof {
        assert(r.deep_view() =~= Seq::<EntryModel>::empty());
    }
    r
}

/// One action ready for dispatch: the files it operates on and the final
/// command, with every placeholder substituted.
#[derive(Debug)]
pub struct PlannedAction {
    /// the action id it was declared under
    pub id: String,
    /// the normalized action
    pub action: Action,
    /// the filtered file list the action operates on
    pub files: Vec<String>,
    /// the command to hand to the shell
    pub command: String,
}

/// Mathematical model of a `PlannedAction`.
pub ghost struct PlannedModel {
    /// model of `PlannedAction::id`
    pub id: Seq<char>,
    /// model of `PlannedAction::action`
    pub action: ActionModel,
    /// model of `PlannedAction::files`
    pub files: Seq<Seq<char>>,
    /// model of `PlannedAction::command`
    pub command: Seq<char>,
}

impl View for PlannedAction {
    type V = PlannedModel;

    open spec fn view(&self) -> PlannedModel {
        PlannedModel {
            id: self.id@,
            action: self.action@,
            files: self.files.deep_view(),
            command: self.command@,
        }
    }
}

impl DeepView for PlannedAction {
    type V = PlannedModel;

    open spec fn deep_view(&self) -> PlannedModel {
        self@
    }
}

/// A command template with every occurrence of the three placeholders
/// replaced by the joined file list. Substitution is textual and
/// unconditional: all three placeholders receive the same string.
pub open spec fn spec_command(run: Seq<char>, joined: Seq<char>) -> Seq<char> {
    replace_seq(
        replace_seq(replace_seq(run, ("{staged_files}")@, joined), ("{push_files}")@, joined),
        ("{files}")@,
        joined,
    )
}

/// The planned form of one selected action.
pub open spec fn spec_planned(e: EntryModel, f: FilesModel) -> PlannedModel {
    let fs = spec_applicable(e.action, f);
    PlannedModel {
        id: e.id,
        action: e.action,
        files: fs,
        command: spec_command(e.action.run, join_seq(fs)),
    }
}

/// The dispatch plan for the selected actions, in declared order: each
/// action whose filtered file list is non-empty, planned; an action with an
/// empty filtered file list is dropped entirely.
pub open spec fn spec_plan(entries: Seq<EntryModel>, f: FilesModel) -> Seq<PlannedModel>
    decreases entries.len(),
{
    if entries.len() == 0 {
        Seq::empty()
    } else {
        let rest = spec_plan(entries.drop_last(), f);
        let e = entries.last();
        if spec_applicable(e.action, f).len() == 0 {
            rest
        } else {
            rest.push(spec_planned(e, f))
        }
    }
}

/// Every planned action operates on at least one file: an action whose
/// filtered file list is empty is never part of a plan.
pub proof fn lemma_plan_nonempty_files(entries: Seq<EntryModel>, f: FilesModel)
    ensures
        forall|k: int|
            0 <= k < spec_plan(entries, f).len() ==> (#[trigger] spec_plan(entries, f)[k]).files.len()
                > 0,
    decreases entries.len(),
{
    if entries.len() > 0 {
        lemma_plan_nonempty_files(entries.drop_last(), f);
    }
}

/// Substitute every placeholder of `run` with the joined file list.
pub fn build_command(run: &str, joined: &str) -> (r: String)
    ensures
        r@ == spec_command(run@, joined@),
{
    let a = replace_all(run, "{staged_files}", joined);
    let b = replace_all(a.as_str(), "{push_files}", joined);
    replace_all(b.as_str(), "{files}", joined)
}

/// Plan the selected actions against the file context: compute each
/// action's filtered file list, drop the actions whose list is empty, and
/// build each remaining action's final command.
pub fn plan_actions(entries: &Vec<ActionEntry>, files: &Files) -> (r: Vec<PlannedAction>)
    requires
        forall|k: int|
            0 <= k < entries.deep_view().len() ==> action_ok(
                (#[trigger] entries.deep_view()[k]).action,
            ),
    ensures
        r.deep_view() == spec_plan(entries.deep_view(), files@),
{
    let ghost ev = entries.deep_view();
    let mut out: Vec<PlannedAction> = Vec::new();
    let mut i: usize = 0;
    proof {
        assert(ev.take(0) =~= Seq::<EntryModel>::empty());
        assert(out.deep_view() =~= spec_plan(ev.take(0), files@));
    }
    while i < entries.len()
        invariant
            ev == entries.deep_view(),
            forall|k: int| 0 <= k < ev.len() ==> action_ok((#[trigger] ev[k]).action),
            i <= ev.len(),
            ev.len() == entries@.len(),
            out.deep_view() == spec_plan(ev.take(i as int), files@),
        decreases ev.len() - i,
    {
        let e = &entries[i];
        let fs = applicable_files(&e.action, files);
        let ghost pv = out@;
        proof {
            assert(ev.take(i + 1).drop_last() =~= ev.take(i as int));
            assert(ev.take(i + 1).last() == ev[i as int]);
        }
        if fs.len() > 0 {
            let joined = join_spaces(&fs);
            let command = build_command(e.action.run.as_str(), joined.as_str());
            let planned = PlannedAction {
                id: e.id.clone(),
                action: clone_action(&e.action),
                files: fs,
                command,
            };
            let ghost pm = planned@;
            proof {
                assert(pm == spec_planned(ev[i as int], files@));
            }
            out.push(planned);
            proof {
                assert(out@.len() == pv.len() + 1);
                assert(out@[pv.len() as int]@ == pm);
                assert forall|k: int| 0 <= k < pv.len() implies #[trigger] out@[k]@ == spec_plan(
                    ev.take(i as int),
                    files@,
                )[k] by {
                    assert(out@[k] == pv[k]);
                }
                assert(out.deep_view() =~= spec_plan(ev.take(i as int), files@).push(pm));
                assert(spec_plan(ev.take(i + 1), files@) == spec_plan(
                    ev.take(i as int),
                    files@,
                ).push(pm));
            }
        } else {
            proof {
                assert(spec_plan(ev.take(i + 1), files@) == spec_plan(ev.take(i as int), files@));
            }
        }
        i += 1;
    }
    proof {
        assert(ev.take(ev.len() as int) =~= ev);
    }
    out
}

} // verus!
