//! The configuration model: an ordered mapping from hook name to an ordered
//! mapping from action id to an action definition, together with the
//! normalization step that expands shorthand definitions and validates the
//! glob patterns of every action.
use vstd::prelude::*;
use vstd::string::StringExecFns;

use crate::pattern::glob_is_valid;
use crate::pattern::valid_glob;

verus! {

/// Description of an action to perform on a target set of files.
#[derive(Debug)]
pub struct Action {
    /// name for display
    pub name: Option<String>,
    /// pattern a candidate path must match, if present
    pub incl: Option<String>,
    /// pattern a candidate path must not match, if present
    pub exclude: Option<String>,
    /// command to run
    pub run: String,
}

/// Mathematical model of an `Action`: each field as a sequence of characters.
pub ghost struct ActionModel {
    /// model of `Action::name`
    pub name: Option<Seq<char>>,
    /// model of `Action::incl`
    pub incl: Option<Seq<char>>,
    /// model of `Action::exclude`
    pub exclude: Option<Seq<char>>,
    /// model of `Action::run`
    pub run: Seq<char>,
}

impl View for Action {
    type V = ActionModel;

    open spec fn view(&self) -> ActionModel {
        ActionModel {
            name: self.name.deep_view(),
            incl: self.incl.deep_view(),
            exclude: self.exclude.deep_view(),
            run: self.run@,
        }
    }
}

/// Representations of actions: either a full record or a bare command string.
#[derive(Debug)]
pub enum HookDefinition {
    /// A full configuration
    Action(Action),
    /// A bare command string standing in for a full record
    Shorthand(String),
}

/// Mathematical model of a `HookDefinition`.
pub ghost enum DefModel {
    /// model of `HookDefinition::Action`
    Action(ActionModel),
    /// model of `HookDefinition::Shorthand`
    Shorthand(Seq<char>),
}

impl View for HookDefinition {
    type V = DefModel;

    open spec fn view(&self) -> DefModel {
        match self {
            HookDefinition::Action(a) => DefModel::Action(a@),
            HookDefinition::Shorthand(s) => DefModel::Shorthand(s@),
        }
    }
}

/// The canonical full form a definition normalizes to: a bare string becomes
/// an action with that string as its command and every optional field absent.
pub open spec fn norm_def(d: DefModel) -> ActionModel {
    match d {
        DefModel::Action(a) => a,
        DefModel::Shorthand(run) => ActionModel {
            name: None,
            incl: None,
            exclude: None,
            run: run,
        },
    }
}

impl HookDefinition {
    /// Normalize this definition to the canonical full `Action` form.
    pub fn into_action(self) -> (r: Action)
        ensures
            r@ == norm_def(self@),
    {
        match self {
            HookDefinition::Action(a) => a,
            HookDefinition::Shorthand(run) => Action {
                name: None,
                incl: None,
                exclude: None,
                run: run,
            },
        }
    }
}

/// Normalization is idempotent: re-normalizing an already normalized
/// definition gives the same action back.
pub proof fn lemma_normalize_idempotent(d: HookDefinition, a: Action)
    requires
        a@ == norm_def(d@),
    ensures
        norm_def(HookDefinition::Action(a)@) == norm_def(d@),
{
}

/// One named action of a hook, in normalized form.
#[derive(Debug)]
pub struct ActionEntry {
    /// the action id it was declared under
    pub id: String,
    /// the normalized action
    pub action: Action,
}

/// Mathematical model of an `ActionEntry`.
pub ghost struct EntryModel {
    /// model of `ActionEntry::id`
    pub id: Seq<char>,
    /// model of `ActionEntry::action`
    pub action: ActionModel,
}

impl View for ActionEntry {
    type V = EntryModel;

    open spec fn view(&self) -> EntryModel {
        EntryModel { id: self.id@, action: self.action@ }
    }
}

impl DeepView for ActionEntry {
    type V = EntryModel;

    open spec fn deep_view(&self) -> EntryModel {
        self@
    }
}

/// One hook with its ordered, normalized actions.
#[derive(Debug)]
pub struct Hook {
    /// the hook name
    pub name: String,
    /// the actions declared under it, in declaration order
    pub actions: Vec<ActionEntry>,
}

/// Mathematical model of a `Hook`.
pub ghost struct HookModel {
    /// model of `Hook::name`
    pub name: Seq<char>,
    /// model of `Hook::actions`
    pub actions: Seq<EntryModel>,
}

impl View for Hook {
    type V = HookModel;

    open spec fn view(&self) -> HookModel {
        HookModel { name: self.name@, actions: self.actions.deep_view() }
    }
}

impl DeepView for Hook {
    type V = HookModel;

    open spec fn deep_view(&self) -> HookModel {
        self@
    }
}

/// Ordered mapping of hook name to named actions, in normalized form.
#[derive(Debug)]
pub struct Config {
    /// the hooks in declaration order
    pub hooks: Vec<Hook>,
}

impl View for Config {
    type V = Seq<HookModel>;

    open spec fn view(&self) -> Seq<HookModel> {
        self.hooks.deep_view()
    }
}

/// One named action definition of a hook, before normalization.
#[derive(Debug)]
pub struct RawEntry {
    /// the action id it is declared under
    pub id: String,
    /// the definition as written in the source
    pub def: HookDefinition,
}

/// Mathematical model of a `RawEntry`.
pub ghost struct RawEntryModel {
    /// model of `RawEntry::id`
    pub id: Seq<char>,
    /// model of `RawEntry::def`
    pub def: DefModel,
}

impl View for RawEntry {
    type V = RawEntryModel;

    open spec fn view(&self) -> RawEntryModel {
        RawEntryModel { id: self.id@, def: self.def@ }
    }
}

impl DeepView for RawEntry {
    type V = RawEntryModel;

    open spec fn deep_view(&self) -> RawEntryModel {
        self@
    }
}

/// One hook with its ordered action definitions, before normalization.
#[derive(Debug)]
pub struct RawHook {
    /// the hook name
    pub name: String,
    /// the definitions declared under it, in declaration order
    pub actions: Vec<RawEntry>,
}

/// Mathematical model of a `RawHook`.
pub ghost struct RawHookModel {
    /// model of `RawHook::name`
    pub name: Seq<char>,
    /// model of `RawHook::actions`
    pub actions: Seq<RawEntryModel>,
}

impl View for RawHook {
    type V = RawHookModel;

    open spec fn view(&self) -> RawHookModel {
        RawHookModel { name: self.name@, actions: self.actions.deep_view() }
    }
}

impl DeepView for RawHook {
    type V = RawHookModel;

    open spec fn deep_view(&self) -> RawHookModel {
        self@
    }
}

/// Ordered mapping of hook name to named action definitions, as read from
/// the configuration source.
#[derive(Debug)]
pub struct RawConfig {
    /// the hooks in declaration order
    pub hooks: Vec<RawHook>,
}

impl View for RawConfig {
    type V = Seq<RawHookModel>;

    open spec fn view(&self) -> Seq<RawHookModel> {
        self.hooks.deep_view()
    }
}

/// The normalized form of a raw configuration: every shorthand expanded,
/// names, ids and order kept.
pub open spec fn spec_normalize(raw: Seq<RawHookModel>) -> Seq<HookModel> {
    raw.map_values(
        |h: RawHookModel|
            HookModel {
                name: h.name,
                actions: h.actions.map_values(
                    |e: RawEntryModel| EntryModel { id: e.id, action: norm_def(e.def) },
                ),
            },
    )
}

/// Both patterns of the action, where present, are well-formed globs.
pub open spec fn action_ok(a: ActionModel) -> bool {
    &&& match a.incl {
        Some(p) => valid_glob(p),
        None => true,
    }
    &&& match a.exclude {
        Some(p) => valid_glob(p),
        None => true,
    }
}

/// Every action of every hook has well-formed patterns.
pub open spec fn config_ok(c: Seq<HookModel>) -> bool {
    forall|i: int, j: int|
        0 <= i < c.len() && 0 <= j < c[i].actions.len() ==> action_ok(
            #[trigger] c[i].actions[j].action,
        )
}

/// The pattern field an `InvalidPattern` error points at.
#[derive(Clone, Copy, Debug, PartialEq, Eq, Structural)]
pub enum PatternField {
    /// the pattern a candidate path must match
    Incl,
    /// the pattern a candidate path must not match
    Exclude,
}

/// The named pattern field of an action.
pub open spec fn field_pattern(a: ActionModel, f: PatternField) -> Option<Seq<char>> {
    match f {
        PatternField::Incl => a.incl,
        PatternField::Exclude => a.exclude,
    }
}

/// The named field is present and holds a malformed pattern.
pub open spec fn field_bad(a: ActionModel, f: PatternField) -> bool {
    match field_pattern(a, f) {
        Some(p) => !valid_glob(p),
        None => false,
    }
}

/// Of a bad action, the field reported first: the inclusion pattern is
/// checked before the exclusion pattern.
pub open spec fn first_bad_field(a: ActionModel) -> PatternField {
    if field_bad(a, PatternField::Incl) {
        PatternField::Incl
    } else {
        PatternField::Exclude
    }
}

/// The action at `(i, j)` of `c` is bad and every action walked before it,
/// in hook order then declaration order, is good.
pub open spec fn is_first_invalid(c: Seq<HookModel>, i: int, j: int) -> bool {
    &&& 0 <= i < c.len()
    &&& 0 <= j < c[i].actions.len()
    &&& !action_ok(c[i].actions[j].action)
    &&& forall|i2: int, j2: int|
        0 <= i2 < c.len() && 0 <= j2 < c[i2].actions.len() && (i2 < i || (i2 == i && j2 < j))
            ==> action_ok(#[trigger] c[i2].actions[j2].action)
}

/// A configuration that cannot be used, with the reason.
#[derive(Debug)]
pub enum ConfigError {
    /// the configuration source was structurally invalid
    Malformed(String),
    /// a pattern did not compile; names the offending hook, action id and
    /// field, and carries the pattern itself
    InvalidPattern {
        /// the hook the bad action belongs to
        hook: String,
        /// the id of the bad action
        id: String,
        /// which pattern field is bad
        field: PatternField,
        /// the pattern that did not compile
        pattern: String,
    },
}

/// The error names the first bad action of the normalized configuration
/// `nc`, in hook order then declaration order, with its first bad field and
/// that field's pattern.
pub open spec fn names_first_invalid(e: ConfigError, nc: Seq<HookModel>) -> bool {
    match e {
        ConfigError::InvalidPattern { hook, id, field, pattern } => exists|i: int, j: int|
            {
                let a = #[trigger] nc[i].actions[j].action;
                &&& is_first_invalid(nc, i, j)
                &&& hook@ == nc[i].name
                &&& id@ == nc[i].actions[j].id
                &&& field == first_bad_field(a)
                &&& Some(pattern@) == field_pattern(a, field)
            },
        ConfigError::Malformed(_) => false,
    }
}

/// The wording of a pattern field in a diagnostic.
pub open spec fn spec_field_name(f: PatternField) -> Seq<char> {
    match f {
        PatternField::Incl => ("inclusion filter")@,
        PatternField::Exclude => ("exclusion filter")@,
    }
}

/// The diagnostic of a configuration error: a malformed source carries the
/// underlying parse diagnostic; a bad pattern names the offending hook,
/// action id and field.
pub open spec fn spec_error_message(e: &ConfigError) -> Seq<char> {
    match e {
        ConfigError::Malformed(m) => ("malformed config: ")@ + m@,
        ConfigError::InvalidPattern { hook, id, field, pattern } => ("invalid pattern '")@
            + pattern@ + ("' in ")@ + spec_field_name(*field) + (" of action '")@ + id@ + (
        "' in hook '")@ + hook@ + ("'")@,
    }
}

impl ConfigError {
    /// The user-visible diagnostic of this error.
    pub fn message(&self) -> (r: String)
        ensures
            r@ == spec_error_message(self),
    {
        match self {
            ConfigError::Malformed(m) => {
                let mut out = String::from_str("malformed config: ");
                out.append(m.as_str());
                out
            },
            ConfigError::InvalidPattern { hook, id, field, pattern } => {
                let mut out = String::from_str("invalid pattern '");
                out.append(pattern.as_str());
                out.append("' in ");
                match field {
                    PatternField::Incl => out.append("inclusion filter"),
                    PatternField::Exclude => out.append("exclusion filter"),
                }
                out.append(" of action '");
                out.append(id.as_str());
                out.append("' in hook '");
                out.append(hook.as_str());
                out.append("'");
                proof {
                    assert(out@ =~= spec_error_message(self));
                }
                out
            },
        }
    }
}

/// Clone an optional string, keeping its model.
fn clone_opt(o: &Option<String>) -> (r: Option<String>)
    ensures
        r.deep_view() == o.deep_view(),
{
    match o {
        Some(s) => Some(s.clone()),
        None => None,
    }
}

/// Clone an action, keeping its model.
pub(crate) fn clone_action(a: &Action) -> (r: Action)
    ensures
        r@ == a@,
{
    Action {
        name: clone_opt(&a.name),
        incl: clone_opt(&a.incl),
        exclude: clone_opt(&a.exclude),
        run: a.run.clone(),
    }
}

/// Normalize one definition without consuming it.
fn normalize_def(d: &HookDefinition) -> (r: Action)
    ensures
        r@ == norm_def(d@),
{
    match d {
        HookDefinition::Action(a) => clone_action(a),
        HookDefinition::Shorthand(run) => Action {
            name: None,
            incl: None,
            exclude: None,
            run: run.clone(),
        },
    }
}

/// Normalize a raw configuration: expand every shorthand into a full action
/// and compile-check every pattern. Succeeds exactly when all patterns are
/// well-formed; otherwise reports the first offending hook, action id and
/// field in walk order.
pub fn normalize(raw: &RawConfig) -> (r: Result<Config, ConfigError>)
    ensures
        r is Ok <==> config_ok(spec_normalize(raw@)),
        match r {
            Ok(c) => c@ == spec_normalize(raw@),
            Err(e) => names_first_invalid(e, spec_normalize(raw@)),
        },
{
    let ghost nc = spec_normalize(raw@);
    let mut hooks: Vec<Hook> = Vec::new();
    let mut i: usize = 0;
    proof {
        assert(hooks.deep_view() =~= nc.take(0));
    }
    while i < raw.hooks.len()
        invariant
            i <= raw.hooks@.len(),
            nc == spec_normalize(raw@),
            nc.len() == raw.hooks@.len(),
            forall|k: int|
                0 <= k < raw.hooks@.len() ==> #[trigger] nc[k].actions.len()
                    == raw.hooks@[k]@.actions.len(),
            hooks.deep_view() == nc.take(i as int),
            forall|i2: int, j2: int|
                0 <= i2 < i && 0 <= j2 < nc[i2].actions.len() ==> action_ok(
                    #[trigger] nc[i2].actions[j2].action,
                ),
        decreases raw.hooks@.len() - i,
    {
        let rh = &raw.hooks[i];
        let mut entries: Vec<ActionEntry> = Vec::new();
        let mut j: usize = 0;
        proof {
            assert(entries.deep_view() =~= nc[i as int].actions.take(0));
        }
        while j < rh.actions.len()
            invariant
                0 <= i < raw.hooks@.len(),
                j <= rh.actions@.len(),
                rh == raw.hooks@[i as int],
                nc == spec_normalize(raw@),
                nc.len() == raw.hooks@.len(),
                nc[i as int].actions.len() == rh.actions@.len(),
                entries.deep_view() == nc[i as int].actions.take(j as int),
                forall|i2: int, j2: int|
                    0 <= i2 < i && 0 <= j2 < nc[i2].actions.len() ==> action_ok(
                        #[trigger] nc[i2].actions[j2].action,
                    ),
                forall|j2: int|
                    0 <= j2 < j ==> action_ok(#[trigger] nc[i as int].actions[j2].action),
            decreases rh.actions@.len() - j,
        {
            let e = &rh.actions[j];
            let a = normalize_def(&e.def);
            proof {
                assert(nc[i as int].actions[j as int] == EntryModel {
                    id: e.id@,
                    action: norm_def(e.def@),
                });
            }
            let bad_field = if let Some(p) = &a.incl {
                if !glob_is_valid(p.as_str()) {
                    Some(PatternField::Incl)
                } else if let Some(q) = &a.exclude {
                    if !glob_is_valid(q.as_str()) {
                        Some(PatternField::Exclude)
                    } else {
                        None
                    }
                } else {
                    None
                }
            } else if let Some(q) = &a.exclude {
                if !glob_is_valid(q.as_str()) {
                    Some(PatternField::Exclude)
                } else {
                    None
                }
            } else {
                None
            };
            if let Some(field) = bad_field {
                let pattern = match field {
                    PatternField::Incl => match &a.incl {
                        Some(p) => p.clone(),
                        None => String::new(),
                    },
                    PatternField::Exclude => match &a.exclude {
                        Some(q) => q.clone(),
                        None => String::new(),
                    },
                };
                proof {
                    assert(is_first_invalid(nc, i as int, j as int));
                    assert(field == first_bad_field(nc[i as int].actions[j as int].action));
                }
                return Err(
                    ConfigError::InvalidPattern {
                        hook: rh.name.clone(),
                        id: e.id.clone(),
                        field,
                        pattern,
                    },
                );
            }
            proof {
                assert(action_ok(a@));
            }
            let new_entry = ActionEntry { id: e.id.clone(), action: a };
            let ghost em = new_entry@;
            let ghost pv = entries@;
            proof {
                assert(pv.len() == j as int) by {
                    assert(entries.deep_view().len() == nc[i as int].actions.take(
                        j as int,
                    ).len());
                }
                assert(em == nc[i as int].actions[j as int]);
            }
            entries.push(new_entry);
            proof {
                assert(entries@.len() == j + 1);
                assert forall|k: int| 0 <= k <= j implies #[trigger] entries@[k]@ == nc[
                    i as int
                ].actions.take(j + 1)[k] by {
                    if k < j {
                        assert(entries@[k] == pv[k]);
                        assert(pv[k]@ == nc[i as int].actions.take(j as int)[k]);
                    } else {
                        assert(entries@[k]@ == em);
                    }
                }
                assert(entries.deep_view() =~= nc[i as int].actions.take(j + 1));
            }
            j += 1;
        }
        proof {
            assert(nc[i as int].actions.take(rh.actions@.len() as int) =~= nc[
                i as int
            ].actions);
        }
        let new_hook = Hook { name: rh.name.clone(), actions: entries };
        let ghost hm = new_hook@;
        let ghost pv = hooks@;
        proof {
            assert(pv.len() == i as int) by {
                assert(hooks.deep_view().len() == nc.take(i as int).len());
            }
            assert(nc[i as int].name == rh.name@);
            assert(hm == nc[i as int]);
        }
        hooks.push(new_hook);
        proof {
            assert(hooks@.len() == i + 1);
            assert forall|k: int| 0 <= k <= i implies #[trigger] hooks@[k]@ == nc.take(i + 1)[k] by {
                if k < i {
                    assert(hooks@[k] == pv[k]);
                    assert(pv[k]@ == nc.take(i as int)[k]);
                } else {
                    assert(hooks@[k]@ == hm);
                }
            }
            assert(hooks.deep_view() =~= nc.take(i + 1));
        }
        i += 1;
    }
    proof {
        assert(nc.take(raw.hooks@.len() as int) =~= nc);
        assert(config_ok(nc));
    }
    Ok(Config { hooks })
}

} // verus!
