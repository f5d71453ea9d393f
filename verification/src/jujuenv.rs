//! The event classifier: reads the variables of an environment snapshot and
//! produces exactly one hook context, a closed variant type carrying the
//! event's own fields plus the shared deployment metadata.

use crate::environment::{env_lookup, EntireEnvContext};
use crate::parsing::{parse_u32_digits, parse_u32_spec, split_pair, split_two_spec};
use vstd::prelude::*;

verus! {

/// The bindings a snapshot means: its view type, spelled out.
pub type EnvModel = Seq<(Seq<char>, Seq<char>)>;

/// Decomposing a unit name `<app>/<index>`: the application name and the
/// numeric unit index.  `None` when there is no `/` or the index half is not
/// a `u32` numeral.
pub open spec fn split_unit_spec(s: Seq<char>) -> Option<(Seq<char>, u32)> {
    match split_two_spec(s, '/') {
        None => None,
        Some(p) => match parse_u32_spec(p.1) {
            None => None,
            Some(n) => Some((p.0, n)),
        },
    }
}

/// Decomposing a composite relation id `<name>:<number>`: the relation name
/// and the numeric id.  `None` when there is no `:` or the numeric half is
/// not a `u32` numeral.
pub open spec fn split_relation_spec(s: Seq<char>) -> Option<(Seq<char>, u32)> {
    match split_two_spec(s, ':') {
        None => None,
        Some(p) => match parse_u32_spec(p.1) {
            None => None,
            Some(n) => Some((p.0, n)),
        },
    }
}

/// Splits a unit name `<app>/<index>` into application name and unit index.
pub fn split_unit_num(unit: &str) -> (r: Option<(String, u32)>)
    ensures
        match split_unit_spec(unit@) {
            Some(p) => r matches Some(q) && q.0@ == p.0 && q.1 == p.1,
            None => r is None,
        },
{
    match split_pair(unit, '/') {
        None => None,
        Some((app, index_text)) => match parse_u32_digits(index_text.as_str()) {
            None => None,
            Some(n) => Some((app, n)),
        },
    }
}

/// Splits a composite relation id `<name>:<number>` into relation name and
/// numeric id.
pub fn split_relation_id(relation_id: &str) -> (r: Option<(String, u32)>)
    ensures
        match split_relation_spec(relation_id@) {
            Some(p) => r matches Some(q) && q.0@ == p.0 && q.1 == p.1,
            None => r is None,
        },
{
    match split_pair(relation_id, ':') {
        None => None,
        Some((name, id_text)) => match parse_u32_digits(id_text.as_str()) {
            None => None,
            Some(n) => Some((name, n)),
        },
    }
}

/// The shared deployment metadata every recognized event carries.
#[derive(Debug)]
pub struct GenericContext {
    pub model: String,
    pub model_uuid: String,
    pub app_name: String,
    pub unit: u32,
    pub juju_version: String,
}

/// The mathematical value of [`GenericContext`].
pub struct GenericContextView {
    pub model: Seq<char>,
    pub model_uuid: Seq<char>,
    pub app_name: Seq<char>,
    pub unit: u32,
    pub juju_version: Seq<char>,
}

impl View for GenericContext {
    type V = GenericContextView;

    open spec fn view(&self) -> GenericContextView {
        GenericContextView {
            model: self.model@,
            model_uuid: self.model_uuid@,
            app_name: self.app_name@,
            unit: self.unit,
            juju_version: self.juju_version@,
        }
    }
}

/// The metadata an environment yields: all four variables present and the
/// unit name decomposed, else nothing.
pub open spec fn metadata_spec(e: EnvModel) -> Option<GenericContextView> {
    match env_lookup(e, "JUJU_UNIT_NAME"@) {
        None => None,
        Some(unit) => match split_unit_spec(unit) {
            None => None,
            Some(p) => match (
                env_lookup(e, "JUJU_MODEL_NAME"@),
                env_lookup(e, "JUJU_MODEL_UUID"@),
                env_lookup(e, "JUJU_VERSION"@),
            ) {
                (Some(model), Some(model_uuid), Some(juju_version)) => Some(
                    GenericContextView {
                        model,
                        model_uuid,
                        app_name: p.0,
                        unit: p.1,
                        juju_version,
                    },
                ),
                _ => None,
            },
        },
    }
}

impl GenericContext {
    /// Builds the deployment metadata from the snapshot, or reports that the
    /// deployment context is invalid.
    pub fn from_env(env: &EntireEnvContext) -> (r: Option<GenericContext>)
        ensures
            match metadata_spec(env@) {
                Some(g) => r matches Some(c) && c@ == g,
                None => r is None,
            },
    {
        let unit = match env.lookup("JUJU_UNIT_NAME") {
            Some(u) => u,
            None => {
                return None;
            },
        };
        let parts = match split_unit_num(unit.as_str()) {
            Some(p) => p,
            None => {
                return None;
            },
        };
        let model = match env.lookup("JUJU_MODEL_NAME") {
            Some(m) => m,
            None => {
                return None;
            },
        };
        let model_uuid = match env.lookup("JUJU_MODEL_UUID") {
            Some(m) => m,
            None => {
                return None;
            },
        };
        let juju_version = match env.lookup("JUJU_VERSION") {
            Some(v) => v,
            None => {
                return None;
            },
        };
        Some(
            GenericContext {
                model,
                model_uuid,
                app_name: parts.0,
                unit: parts.1,
                juju_version,
            },
        )
    }
}

/// The hook-name variable holds exactly `lit`.
pub open spec fn hook_is(e: EnvModel, lit: Seq<char>) -> bool {
    env_lookup(e, "JUJU_HOOK_NAME"@) == Some(lit)
}

/// Compares the snapshot's hook-name variable against a fixed hook name.
fn hook_name_equals(env: &EntireEnvContext, lit: &str) -> (r: bool)
    ensures
        r == hook_is(env@, lit@),
{
    match env.lookup("JUJU_HOOK_NAME") {
        Some(hook) => {
            let expected = String::from_str(lit);
            hook == expected
        },
        None => false,
    }
}

/// Marker context of the fixed-name `install` hook.
#[derive(Debug)]
pub struct InstallContext {}

impl InstallContext {
    /// Matches when the hook name is exactly `install`.
    pub fn from_env(env: &EntireEnvContext) -> (r: Option<InstallContext>)
        ensures
            r is Some <==> hook_is(env@, "install"@),
    {
        if hook_name_equals(env, "install") {
            Some(InstallContext {})
        } else {
            None
        }
    }
}

/// Marker context of the fixed-name `leader-elected` hook.
#[derive(Debug)]
pub struct LeaderElectedContext {}

impl LeaderElectedContext {
    /// Matches when the hook name is exactly `leader-elected`.
    pub fn from_env(env: &EntireEnvContext) -> (r: Option<LeaderElectedContext>)
        ensures
            r is Some <==> hook_is(env@, "leader-elected"@),
    {
        if hook_name_equals(env, "leader-elected") {
            Some(LeaderElectedContext {})
        } else {
            None
        }
    }
}

/// Marker context of the fixed-name `config-changed` hook.
#[derive(Debug)]
pub struct ConfigChangedContext {}

impl ConfigChangedContext {
    /// Matches when the hook name is exactly `config-changed`.
    pub fn from_env(env: &EntireEnvContext) -> (r: Option<ConfigChangedContext>)
        ensures
            r is Some <==> hook_is(env@, "config-changed"@),
    {
        if hook_name_equals(env, "config-changed") {
            Some(ConfigChangedContext {})
        } else {
            None
        }
    }
}

/// Marker context of the fixed-name `start` hook.
#[derive(Debug)]
pub struct StartContext {}

impl StartContext {
    /// Matches when the hook name is exactly `start`.
    pub fn from_env(env: &EntireEnvContext) -> (r: Option<StartContext>)
        ensures
            r is Some <==> hook_is(env@, "start"@),
    {
        if hook_name_equals(env, "start") {
            Some(StartContext {})
        } else {
            None
        }
    }
}

/// Marker context of the fixed-name `update-status` hook.
#[derive(Debug)]
pub struct UpdateStatusContext {}

impl UpdateStatusContext {
    /// Matches when the hook name is exactly `update-status`.
    pub fn from_env(env: &EntireEnvContext) -> (r: Option<UpdateStatusContext>)
        ensures
            r is Some <==> hook_is(env@, "update-status"@),
    {
        if hook_name_equals(env, "update-status") {
            Some(UpdateStatusContext {})
        } else {
            None
        }
    }
}

/// Marker context of the fixed-name `stop` hook.
#[derive(Debug)]
pub struct StopContext {}

impl StopContext {
    /// Matches when the hook name is exactly `stop`.
    pub fn from_env(env: &EntireEnvContext) -> (r: Option<StopContext>)
        ensures
            r is Some <==> hook_is(env@, "stop"@),
    {
        if hook_name_equals(env, "stop") {
            Some(StopContext {})
        } else {
            None
        }
    }
}

/// Marker context of the fixed-name `remove` hook.
#[derive(Debug)]
pub struct RemoveContext {}

impl RemoveContext {
    /// Matches when the hook name is exactly `remove`.
    pub fn from_env(env: &EntireEnvContext) -> (r: Option<RemoveContext>)
        ensures
            r is Some <==> hook_is(env@, "remove"@),
    {
        if hook_name_equals(env, "remove") {
            Some(RemoveContext {})
        } else {
            None
        }
    }
}

/// Context of a workload-ready event: the workload whose name, followed by
/// `-pebble-ready`, is the hook name.
#[derive(Debug)]
pub struct PebbleReadyContext {
    pub workload: String,
}

/// The mathematical value of [`PebbleReadyContext`].
pub struct PebbleReadyContextView {
    pub workload: Seq<char>,
}

impl View for PebbleReadyContext {
    type V = PebbleReadyContextView;

    open spec fn view(&self) -> PebbleReadyContextView {
        PebbleReadyContextView { workload: self.workload@ }
    }
}

/// The workload-ready candidate: the workload-name variable is present and
/// the hook name is exactly that name followed by `-pebble-ready`.
pub open spec fn pebble_spec(e: EnvModel) -> Option<PebbleReadyContextView> {
    match (env_lookup(e, "JUJU_HOOK_NAME"@), env_lookup(e, "JUJU_WORKLOAD_NAME"@)) {
        (Some(hook), Some(workload)) => if hook == workload + "-pebble-ready"@ {
            Some(PebbleReadyContextView { workload })
        } else {
            None
        },
        _ => None,
    }
}

impl PebbleReadyContext {
    /// Matches when the hook name is the named workload's own ready event.
    pub fn from_env(env: &EntireEnvContext) -> (r: Option<PebbleReadyContext>)
        ensures
            match pebble_spec(env@) {
                Some(p) => r matches Some(c) && c@ == p,
                None => r is None,
            },
    {
        let hook = match env.lookup("JUJU_HOOK_NAME") {
            Some(h) => h,
            None => {
                return None;
            },
        };
        let workload = match env.lookup("JUJU_WORKLOAD_NAME") {
            Some(w) => w,
            None => {
                return None;
            },
        };
        let expected = workload.clone().concat("-pebble-ready");
        if hook == expected {
            Some(PebbleReadyContext { workload })
        } else {
            None
        }
    }
}

/// The part every relation candidate shares: relation name, remote
/// application and composite relation id present, the id decomposed, and the
/// hook name exactly the relation name followed by the candidate's suffix.
/// Yields relation name, numeric id and remote application.
pub open spec fn relation_core_spec(e: EnvModel, suffix: Seq<char>) -> Option<
    (Seq<char>, u32, Seq<char>),
> {
    match (
        env_lookup(e, "JUJU_HOOK_NAME"@),
        env_lookup(e, "JUJU_RELATION"@),
        env_lookup(e, "JUJU_REMOTE_APP"@),
        env_lookup(e, "JUJU_RELATION_ID"@),
    ) {
        (Some(hook), Some(relation_name), Some(remote_app), Some(relation_id)) => match
        split_relation_spec(relation_id) {
            Some(p) => if hook == relation_name + suffix {
                Some((relation_name, p.1, remote_app))
            } else {
                None
            },
            None => None,
        },
        _ => None,
    }
}

/// Reads the variables every relation candidate needs and tests the hook name
/// against `<relation-name><suffix>`.
fn relation_core(env: &EntireEnvContext, suffix: &str) -> (r: Option<(String, u32, String)>)
    ensures
        match relation_core_spec(env@, suffix@) {
            Some(t) => r matches Some(q) && q.0@ == t.0 && q.1 == t.1 && q.2@ == t.2,
            None => r is None,
        },
{
    let hook = match env.lookup("JUJU_HOOK_NAME") {
        Some(h) => h,
        None => {
            return None;
        },
    };
    let relation_name = match env.lookup("JUJU_RELATION") {
        Some(x) => x,
        None => {
            return None;
        },
    };
    let remote_app = match env.lookup("JUJU_REMOTE_APP") {
        Some(x) => x,
        None => {
            return None;
        },
    };
    let relation_id = match env.lookup("JUJU_RELATION_ID") {
        Some(x) => x,
        None => {
            return None;
        },
    };
    let parts = match split_relation_id(relation_id.as_str()) {
        Some(p) => p,
        None => {
            return None;
        },
    };
    let expected = relation_name.clone().concat(suffix);
    if hook == expected {
        Some((relation_name, parts.1, remote_app))
    } else {
        None
    }
}

/// Context of a relation-created event.
#[derive(Debug)]
pub struct RelationCreatedContext {
    pub relation_name: String,
    pub relation_id: u32,
    pub remote_app: String,
}

/// The mathematical value of [`RelationCreatedContext`].
pub struct RelationCreatedContextView {
    pub relation_name: Seq<char>,
    pub relation_id: u32,
    pub remote_app: Seq<char>,
}

impl View for RelationCreatedContext {
    type V = RelationCreatedContextView;

    open spec fn view(&self) -> RelationCreatedContextView {
        RelationCreatedContextView {
            relation_name: self.relation_name@,
            relation_id: self.relation_id,
            remote_app: self.remote_app@,
        }
    }
}

/// The relation-created candidate.
pub open spec fn relation_created_spec(e: EnvModel) -> Option<RelationCreatedContextView> {
    match relation_core_spec(e, "-relation-created"@) {
        Some(t) => Some(
            RelationCreatedContextView { relation_name: t.0, relation_id: t.1, remote_app: t.2 },
        ),
        None => None,
    }
}

impl RelationCreatedContext {
    /// Matches when the hook name is `<relation-name>-relation-created` and
    /// the composite relation id decomposes.
    pub fn from_env(env: &EntireEnvContext) -> (r: Option<RelationCreatedContext>)
        ensures
            match relation_created_spec(env@) {
                Some(v) => r matches Some(c) && c@ == v,
                None => r is None,
            },
    {
        match relation_core(env, "-relation-created") {
            Some((relation_name, relation_id, remote_app)) => Some(
                RelationCreatedContext { relation_name, relation_id, remote_app },
            ),
            None => None,
        }
    }
}

/// Context of a relation-broken event.
#[derive(Debug)]
pub struct RelationBrokenContext {
    pub relation_name: String,
    pub relation_id: u32,
    pub remote_app: String,
}

/// The mathematical value of [`RelationBrokenContext`].
pub struct RelationBrokenContextView {
    pub relation_name: Seq<char>,
    pub relation_id: u32,
    pub remote_app: Seq<char>,
}

impl View for RelationBrokenContext {
    type V = RelationBrokenContextView;

    open spec fn view(&self) -> RelationBrokenContextView {
        RelationBrokenContextView {
            relation_name: self.relation_name@,
            relation_id: self.relation_id,
            remote_app: self.remote_app@,
        }
    }
}

/// The relation-broken candidate.
pub open spec fn relation_broken_spec(e: EnvModel) -> Option<RelationBrokenContextView> {
    match relation_core_spec(e, "-relation-broken"@) {
        Some(t) => Some(
            RelationBrokenContextView { relation_name: t.0, relation_id: t.1, remote_app: t.2 },
        ),
        None => None,
    }
}

impl RelationBrokenContext {
    /// Matches when the hook name is `<relation-name>-relation-broken` and
    /// the composite relation id decomposes.
    pub fn from_env(env: &EntireEnvContext) -> (r: Option<RelationBrokenContext>)
        ensures
            match relation_broken_spec(env@) {
                Some(v) => r matches Some(c) && c@ == v,
                None => r is None,
            },
    {
        match relation_core(env, "-relation-broken") {
            Some((relation_name, relation_id, remote_app)) => Some(
                RelationBrokenContext { relation_name, relation_id, remote_app },
            ),
            None => None,
        }
    }
}

/// Context of a relation-joined event.
#[derive(Debug)]
pub struct RelationJoinedContext {
    pub relation_name: String,
    pub relation_id: u32,
    pub remote_app: String,
    pub remote_unit: String,
}

/// The mathematical value of [`RelationJoinedContext`].
pub struct RelationJoinedContextView {
    pub relation_name: Seq<char>,
    pub relation_id: u32,
    pub remote_app: Seq<char>,
    pub remote_unit: Seq<char>,
}

impl View for RelationJoinedContext {
    type V = RelationJoinedContextView;

    open spec fn view(&self) -> RelationJoinedContextView {
        RelationJoinedContextView {
            relation_name: self.relation_name@,
            relation_id: self.relation_id,
            remote_app: self.remote_app@,
            remote_unit: self.remote_unit@,
        }
    }
}

/// The relation-joined candidate: the shared relation part plus the remote
/// unit's name.
pub open spec fn relation_joined_spec(e: EnvModel) -> Option<RelationJoinedContextView> {
    match (relation_core_spec(e, "-relation-joined"@), env_lookup(e, "JUJU_REMOTE_UNIT"@)) {
        (Some(t), Some(remote_unit)) => Some(
            RelationJoinedContextView {
                relation_name: t.0,
                relation_id: t.1,
                remote_app: t.2,
                remote_unit,
            },
        ),
        _ => None,
    }
}

impl RelationJoinedContext {
    /// Matches when the hook name is `<relation-name>-relation-joined`, the
    /// composite relation id decomposes, and the remote unit is named.
    pub fn from_env(env: &EntireEnvContext) -> (r: Option<RelationJoinedContext>)
        ensures
            match relation_joined_spec(env@) {
                Some(v) => r matches Some(c) && c@ == v,
                None => r is None,
            },
    {
        let core = match relation_core(env, "-relation-joined") {
            Some(t) => t,
            None => {
                return None;
            },
        };
        match env.lookup("JUJU_REMOTE_UNIT") {
            Some(remote_unit) => Some(
                RelationJoinedContext {
                    relation_name: core.0,
                    relation_id: core.1,
                    remote_app: core.2,
                    remote_unit,
                },
            ),
            None => None,
        }
    }
}

/// Context of a relation-departed event.
#[derive(Debug)]
pub struct RelationDepartedContext {
    pub relation_name: String,
    pub relation_id: u32,
    pub remote_app: String,
    pub remote_unit: String,
    pub departing_unit: String,
}

/// The mathematical value of [`RelationDepartedContext`].
pub struct RelationDepartedContextView {
    pub relation_name: Seq<char>,
    pub relation_id: u32,
    pub remote_app: Seq<char>,
    pub remote_unit: Seq<char>,
    pub departing_unit: Seq<char>,
}

impl View for RelationDepartedContext {
    type V = RelationDepartedContextView;

    open spec fn view(&self) -> RelationDepartedContextView {
        RelationDepartedContextView {
            relation_name: self.relation_name@,
            relation_id: self.relation_id,
            remote_app: self.remote_app@,
            remote_unit: self.remote_unit@,
            departing_unit: self.departing_unit@,
        }
    }
}

/// The relation-departed candidate: the shared relation part plus the remote
/// unit and the unit that is departing.
pub open spec fn relation_departed_spec(e: EnvModel) -> Option<RelationDepartedContextView> {
    match (
        relation_core_spec(e, "-relation-departed"@),
        env_lookup(e, "JUJU_REMOTE_UNIT"@),
        env_lookup(e, "JUJU_DEPARTING_UNIT"@),
    ) {
        (Some(t), Some(remote_unit), Some(departing_unit)) => Some(
            RelationDepartedContextView {
                relation_name: t.0,
                relation_id: t.1,
                remote_app: t.2,
                remote_unit,
                departing_unit,
            },
        ),
        _ => None,
    }
}

impl RelationDepartedContext {
    /// Matches when the hook name is `<relation-name>-relation-departed`, the
    /// composite relation id decomposes, and both unit names are present.
    pub fn from_env(env: &EntireEnvContext) -> (r: Option<RelationDepartedContext>)
        ensures
            match relation_departed_spec(env@) {
                Some(v) => r matches Some(c) && c@ == v,
                None => r is None,
            },
    {
        let core = match relation_core(env, "-relation-departed") {
            Some(t) => t,
            None => {
                return None;
            },
        };
        let remote_unit = match env.lookup("JUJU_REMOTE_UNIT") {
            Some(x) => x,
            None => {
                return None;
            },
        };
        match env.lookup("JUJU_DEPARTING_UNIT") {
            Some(departing_unit) => Some(
                RelationDepartedContext {
                    relation_name: core.0,
                    relation_id: core.1,
                    remote_app: core.2,
                    remote_unit,
                    departing_unit,
                },
            ),
            None => None,
        }
    }
}

/// Context of a relation-changed event.
#[derive(Debug)]
pub struct RelationChangedContext {
    pub relation_name: String,
    pub relation_id: u32,
    pub remote_app: String,
    pub remote_unit: String,
}

/// The mathematical value of [`RelationChangedContext`].
pub struct RelationChangedContextView {
    pub relation_name: Seq<char>,
    pub relation_id: u32,
    pub remote_app: Seq<char>,
    pub remote_unit: Seq<char>,
}

impl View for RelationChangedContext {
    type V = RelationChangedContextView;

    open spec fn view(&self) -> RelationChangedContextView {
        RelationChangedContextView {
            relation_name: self.relation_name@,
            relation_id: self.relation_id,
            remote_app: self.remote_app@,
            remote_unit: self.remote_unit@,
        }
    }
}

/// The relation-changed candidate: the shared relation part plus the remote
/// unit's name.
pub open spec fn relation_changed_spec(e: EnvModel) -> Option<RelationChangedContextView> {
    match (relation_core_spec(e, "-relation-changed"@), env_lookup(e, "JUJU_REMOTE_UNIT"@)) {
        (Some(t), Some(remote_unit)) => Some(
            RelationChangedContextView {
                relation_name: t.0,
                relation_id: t.1,
                remote_app: t.2,
                remote_unit,
            },
        ),
        _ => None,
    }
}

impl RelationChangedContext {
    /// Matches when the hook name is `<relation-name>-relation-changed`, the
    /// composite relation id decomposes, and the remote unit is named.
    pub fn from_env(env: &EntireEnvContext) -> (r: Option<RelationChangedContext>)
        ensures
            match relation_changed_spec(env@) {
                Some(v) => r matches Some(c) && c@ == v,
                None => r is None,
            },
    {
        let core = match relation_core(env, "-relation-changed") {
            Some(t) => t,
            None => {
                return None;
            },
        };
        match env.lookup("JUJU_REMOTE_UNIT") {
            Some(remote_unit) => Some(
                RelationChangedContext {
                    relation_name: core.0,
                    relation_id: core.1,
                    remote_app: core.2,
                    remote_unit,
                },
            ),
            None => None,
        }
    }
}

/// The classified event: exactly one of the known shapes, each recognized
/// shape carrying its own fields and the shared deployment metadata, or the
/// catch-all invalid shape carrying a diagnostic message and the whole
/// snapshot.
#[derive(Debug)]
pub enum HookContext {
    Install(InstallContext, GenericContext),
    Start(StartContext, GenericContext),
    LeaderElected(LeaderElectedContext, GenericContext),
    ConfigChanged(ConfigChangedContext, GenericContext),
    PebbleReady(PebbleReadyContext, GenericContext),
    UpdateStatus(UpdateStatusContext, GenericContext),
    Stop(StopContext, GenericContext),
    Remove(RemoveContext, GenericContext),
    RelationCreated(RelationCreatedContext, GenericContext),
    RelationBroken(RelationBrokenContext, GenericContext),
    RelationJoined(RelationJoinedContext, GenericContext),
    RelationDeparted(RelationDepartedContext, GenericContext),
    RelationChanged(RelationChangedContext, GenericContext),
    InvalidContext(String, EntireEnvContext),
}

/// The mathematical value of [`HookContext`].
pub enum HookContextView {
    Install(GenericContextView),
    Start(GenericContextView),
    LeaderElected(GenericContextView),
    ConfigChanged(GenericContextView),
    PebbleReady(PebbleReadyContextView, GenericContextView),
    UpdateStatus(GenericContextView),
    Stop(GenericContextView),
    Remove(GenericContextView),
    RelationCreated(RelationCreatedContextView, GenericContextView),
    RelationBroken(RelationBrokenContextView, GenericContextView),
    RelationJoined(RelationJoinedContextView, GenericContextView),
    RelationDeparted(RelationDepartedContextView, GenericContextView),
    RelationChanged(RelationChangedContextView, GenericContextView),
    InvalidContext(Seq<char>, EnvModel),
}

impl View for HookContext {
    type V = HookContextView;

    open spec fn view(&self) -> HookContextView {
        match self {
            HookContext::Install(_, g) => HookContextView::Install(g@),
            HookContext::Start(_, g) => HookContextView::Start(g@),
            HookContext::LeaderElected(_, g) => HookContextView::LeaderElected(g@),
            HookContext::ConfigChanged(_, g) => HookContextView::ConfigChanged(g@),
            HookContext::PebbleReady(c, g) => HookContextView::PebbleReady(c@, g@),
            HookContext::UpdateStatus(_, g) => HookContextView::UpdateStatus(g@),
            HookContext::Stop(_, g) => HookContextView::Stop(g@),
            HookContext::Remove(_, g) => HookContextView::Remove(g@),
            HookContext::RelationCreated(c, g) => HookContextView::RelationCreated(c@, g@),
            HookContext::RelationBroken(c, g) => HookContextView::RelationBroken(c@, g@),
            HookContext::RelationJoined(c, g) => HookContextView::RelationJoined(c@, g@),
            HookContext::RelationDeparted(c, g) => HookContextView::RelationDeparted(c@, g@),
            HookContext::RelationChanged(c, g) => HookContextView::RelationChanged(c@, g@),
            HookContext::InvalidContext(m, e) => HookContextView::InvalidContext(m@, e@),
        }
    }
}

/// The one event an environment snapshot classifies to.  Metadata failure is
/// total failure; with metadata in hand the candidates are tried in a fixed
/// priority order and the first match wins; a match failure of one candidate
/// (absent variable, malformed id) only passes to the next.
pub open spec fn classify(e: EnvModel) -> HookContextView {
    match metadata_spec(e) {
        None => HookContextView::InvalidContext("deployment context invalid"@, e),
        Some(g) => if hook_is(e, "install"@) {
            HookContextView::Install(g)
        } else if hook_is(e, "start"@) {
            HookContextView::Start(g)
        } else if hook_is(e, "leader-elected"@) {
            HookContextView::LeaderElected(g)
        } else if hook_is(e, "config-changed"@) {
            HookContextView::ConfigChanged(g)
        } else if pebble_spec(e) is Some {
            HookContextView::PebbleReady(pebble_spec(e)->Some_0, g)
        } else if hook_is(e, "update-status"@) {
            HookContextView::UpdateStatus(g)
        } else if hook_is(e, "stop"@) {
            HookContextView::Stop(g)
        } else if hook_is(e, "remove"@) {
            HookContextView::Remove(g)
        } else if relation_created_spec(e) is Some {
            HookContextView::RelationCreated(relation_created_spec(e)->Some_0, g)
        } else if relation_broken_spec(e) is Some {
            HookContextView::RelationBroken(relation_broken_spec(e)->Some_0, g)
        } else if relation_joined_spec(e) is Some {
            HookContextView::RelationJoined(relation_joined_spec(e)->Some_0, g)
        } else if relation_departed_spec(e) is Some {
            HookContextView::RelationDeparted(relation_departed_spec(e)->Some_0, g)
        } else if relation_changed_spec(e) is Some {
            HookContextView::RelationChanged(relation_changed_spec(e)->Some_0, g)
        } else {
            HookContextView::InvalidContext("context present but no known event matched"@, e)
        },
    }
}

/// Classifies the snapshot: produces exactly the event [`classify`] assigns
/// to it.  Never fails; every failure path ends in the invalid shape carrying
/// the snapshot itself.
pub fn parse_hook_context(env: EntireEnvContext) -> (r: HookContext)
    ensures
        r@ == classify(env@),
{
    let generic = GenericContext::from_env(&env);
    match generic {
        None => HookContext::InvalidContext(
            String::from_str("deployment context invalid"),
            env,
        ),
        Some(g) => {
            if let Some(c) = InstallContext::from_env(&env) {
                HookContext::Install(c, g)
            } else if let Some(c) = StartContext::from_env(&env) {
                HookContext::Start(c, g)
            } else if let Some(c) = LeaderElectedContext::from_env(&env) {
                HookContext::LeaderElected(c, g)
            } else if let Some(c) = ConfigChangedContext::from_env(&env) {
                HookContext::ConfigChanged(c, g)
            } else if let Some(c) = PebbleReadyContext::from_env(&env) {
                HookContext::PebbleReady(c, g)
            } else if let Some(c) = UpdateStatusContext::from_env(&env) {
                HookContext::UpdateStatus(c, g)
            } else if let Some(c) = StopContext::from_env(&env) {
                HookContext::Stop(c, g)
            } else if let Some(c) = RemoveContext::from_env(&env) {
                HookContext::Remove(c, g)
            } else if let Some(c) = RelationCreatedContext::from_env(&env) {
                HookContext::RelationCreated(c, g)
            } else if let Some(c) = RelationBrokenContext::from_env(&env) {
                HookContext::RelationBroken(c, g)
            } else if let Some(c) = RelationJoinedContext::from_env(&env) {
                HookContext::RelationJoined(c, g)
            } else if let Some(c) = RelationDepartedContext::from_env(&env) {
                HookContext::RelationDeparted(c, g)
            } else if let Some(c) = RelationChangedContext::from_env(&env) {
                HookContext::RelationChanged(c, g)
            } else {
                HookContext::InvalidContext(
                    String::from_str("context present but no known event matched"),
                    env,
                )
            }
        },
    }
}

/// Two suffixed strings that disagree `k` characters from the end differ,
/// whatever stands before the suffixes.
proof fn lemma_suffix_mismatch(x: Seq<char>, a: Seq<char>, y: Seq<char>, b: Seq<char>, k: int)
    requires
        1 <= k <= a.len(),
        k <= b.len(),
        a[a.len() - k] != b[b.len() - k],
    ensures
        x + a != y + b,
{
    if x + a == y + b {
        let h = x + a;
        assert(h.len() == x.len() + a.len());
        assert(h[h.len() - k] == a[a.len() - k]);
        assert(h[h.len() - k] == b[b.len() - k]);
    }
}

/// A fixed word differs from any string ending in a suffix that disagrees
/// with the word `k` characters from the end.
proof fn lemma_literal_vs_suffix(a: Seq<char>, y: Seq<char>, b: Seq<char>, k: int)
    requires
        1 <= k <= a.len(),
        k <= b.len(),
        a[a.len() - k] != b[b.len() - k],
    ensures
        a != y + b,
{
    if a == y + b {
        let h = y + b;
        assert(h.len() == y.len() + b.len());
        assert(h[h.len() - k] == b[b.len() - k]);
        assert(h[h.len() - k] == a[a.len() - k]);
    }
}

/// Each fixed lifecycle hook name, under valid metadata, classifies to its
/// own variant carrying that metadata: the fixed-name shapes are disjoint
/// from each other and from the computed-name shapes, so the priority order
/// cannot misfire.
pub proof fn lemma_simple_hooks_classified(e: EnvModel)
    ensures
        metadata_spec(e) matches Some(g) ==> {
            &&& (hook_is(e, "install"@) ==> classify(e) == HookContextView::Install(g))
            &&& (hook_is(e, "start"@) ==> classify(e) == HookContextView::Start(g))
            &&& (hook_is(e, "leader-elected"@) ==> classify(e) == HookContextView::LeaderElected(
                g,
            ))
            &&& (hook_is(e, "config-changed"@) ==> classify(e) == HookContextView::ConfigChanged(
                g,
            ))
            &&& (hook_is(e, "update-status"@) ==> classify(e) == HookContextView::UpdateStatus(g))
            &&& (hook_is(e, "stop"@) ==> classify(e) == HookContextView::Stop(g))
            &&& (hook_is(e, "remove"@) ==> classify(e) == HookContextView::Remove(g))
        },
{
    reveal_strlit("install");
    reveal_strlit("start");
    reveal_strlit("leader-elected");
    reveal_strlit("config-changed");
    reveal_strlit("update-status");
    reveal_strlit("stop");
    reveal_strlit("remove");
    reveal_strlit("-pebble-ready");
    lemma_fixed_hook_names_distinct();
    if pebble_spec(e) is Some {
        let hook = env_lookup(e, "JUJU_HOOK_NAME"@)->Some_0;
        let w = env_lookup(e, "JUJU_WORKLOAD_NAME"@)->Some_0;
        assert(hook == w + "-pebble-ready"@);
        assert(hook.len() == w.len() + 13);
        if hook_is(e, "update-status"@) {
            lemma_literal_vs_suffix("update-status"@, w, "-pebble-ready"@, 1);
        }
    }
}

/// The lengths of the fixed lifecycle hook names, and the one disagreement
/// needed between the two names of equal length: together these make the
/// fixed names pairwise distinct.
proof fn lemma_fixed_hook_names_distinct()
    ensures
        "install"@.len() == 7,
        "start"@.len() == 5,
        "leader-elected"@.len() == 14,
        "config-changed"@.len() == 14,
        "update-status"@.len() == 13,
        "stop"@.len() == 4,
        "remove"@.len() == 6,
        "leader-elected"@ != "config-changed"@,
{
    reveal_strlit("install");
    reveal_strlit("start");
    reveal_strlit("leader-elected");
    reveal_strlit("config-changed");
    reveal_strlit("update-status");
    reveal_strlit("stop");
    reveal_strlit("remove");
    assert("leader-elected"@[0] == 'l');
    assert("config-changed"@[0] == 'c');
}

/// A present workload name whose ready event is exactly the hook name, under
/// valid metadata, classifies to the workload-ready variant: no fixed-name
/// shape earlier in the priority order can capture such a hook name.
pub proof fn lemma_pebble_ready_classified(e: EnvModel)
    ensures
        metadata_spec(e) matches Some(g) ==> match pebble_spec(e) {
            Some(p) => classify(e) == HookContextView::PebbleReady(p, g),
            None => true,
        },
{
    reveal_strlit("install");
    reveal_strlit("start");
    reveal_strlit("leader-elected");
    reveal_strlit("config-changed");
    reveal_strlit("-pebble-ready");
    if pebble_spec(e) is Some {
        let hook = env_lookup(e, "JUJU_HOOK_NAME"@)->Some_0;
        let w = env_lookup(e, "JUJU_WORKLOAD_NAME"@)->Some_0;
        assert(hook == w + "-pebble-ready"@);
        assert(hook.len() == w.len() + 13);
        if hook_is(e, "leader-elected"@) {
            lemma_literal_vs_suffix("leader-elected"@, w, "-pebble-ready"@, 1);
        }
        if hook_is(e, "config-changed"@) {
            lemma_literal_vs_suffix("config-changed"@, w, "-pebble-ready"@, 1);
        }
    }
}

/// The workload-ready variant arises only when the hook name is exactly the
/// named workload's own name followed by `-pebble-ready`.
pub proof fn lemma_pebble_ready_exact(e: EnvModel)
    ensures
        classify(e) matches HookContextView::PebbleReady(p, _) ==> {
            &&& env_lookup(e, "JUJU_WORKLOAD_NAME"@) == Some(p.workload)
            &&& env_lookup(e, "JUJU_HOOK_NAME"@) == Some(p.workload + "-pebble-ready"@)
        },
{
}

/// Each relation verb, under valid metadata and with its required variables
/// present and its composite id decomposable, classifies to its own relation
/// variant: the verbs' hook-name suffixes are pairwise distinct, so no
/// earlier candidate can capture the hook name.
pub proof fn lemma_relation_hooks_classified(e: EnvModel)
    ensures
        metadata_spec(e) matches Some(g) ==> {
            &&& match relation_created_spec(e) {
                Some(v) => classify(e) == HookContextView::RelationCreated(v, g),
                None => true,
            }
            &&& match relation_broken_spec(e) {
                Some(v) => classify(e) == HookContextView::RelationBroken(v, g),
                None => true,
            }
            &&& match relation_joined_spec(e) {
                Some(v) => classify(e) == HookContextView::RelationJoined(v, g),
                None => true,
            }
            &&& match relation_departed_spec(e) {
                Some(v) => classify(e) == HookContextView::RelationDeparted(v, g),
                None => true,
            }
            &&& match relation_changed_spec(e) {
                Some(v) => classify(e) == HookContextView::RelationChanged(v, g),
                None => true,
            }
        },
{
    reveal_strlit("install");
    reveal_strlit("start");
    reveal_strlit("leader-elected");
    reveal_strlit("config-changed");
    reveal_strlit("update-status");
    reveal_strlit("stop");
    reveal_strlit("remove");
    reveal_strlit("-pebble-ready");
    reveal_strlit("-relation-created");
    reveal_strlit("-relation-broken");
    reveal_strlit("-relation-joined");
    reveal_strlit("-relation-departed");
    reveal_strlit("-relation-changed");
    let hook = env_lookup(e, "JUJU_HOOK_NAME"@)->Some_0;
    let rn = env_lookup(e, "JUJU_RELATION"@)->Some_0;
    let w = env_lookup(e, "JUJU_WORKLOAD_NAME"@)->Some_0;
    if relation_core_spec(e, "-relation-created"@) is Some {
        assert(hook == rn + "-relation-created"@);
        if pebble_spec(e) is Some {
            lemma_suffix_mismatch(rn, "-relation-created"@, w, "-pebble-ready"@, 1);
        }
    }
    if relation_core_spec(e, "-relation-broken"@) is Some {
        assert(hook == rn + "-relation-broken"@);
        if pebble_spec(e) is Some {
            lemma_suffix_mismatch(rn, "-relation-broken"@, w, "-pebble-ready"@, 1);
        }
        if relation_core_spec(e, "-relation-created"@) is Some {
            lemma_suffix_mismatch(rn, "-relation-broken"@, rn, "-relation-created"@, 1);
        }
    }
    if relation_core_spec(e, "-relation-joined"@) is Some {
        assert(hook == rn + "-relation-joined"@);
        if pebble_spec(e) is Some {
            lemma_suffix_mismatch(rn, "-relation-joined"@, w, "-pebble-ready"@, 1);
        }
        if relation_core_spec(e, "-relation-created"@) is Some {
            lemma_suffix_mismatch(rn, "-relation-joined"@, rn, "-relation-created"@, 3);
        }
        if relation_core_spec(e, "-relation-broken"@) is Some {
            lemma_suffix_mismatch(rn, "-relation-joined"@, rn, "-relation-broken"@, 1);
        }
    }
    if relation_core_spec(e, "-relation-departed"@) is Some {
        assert(hook == rn + "-relation-departed"@);
        if pebble_spec(e) is Some {
            lemma_suffix_mismatch(rn, "-relation-departed"@, w, "-pebble-ready"@, 1);
        }
        if relation_core_spec(e, "-relation-created"@) is Some {
            lemma_suffix_mismatch(rn, "-relation-departed"@, rn, "-relation-created"@, 4);
        }
        if relation_core_spec(e, "-relation-broken"@) is Some {
            lemma_suffix_mismatch(rn, "-relation-departed"@, rn, "-relation-broken"@, 1);
        }
        if relation_core_spec(e, "-relation-joined"@) is Some {
            lemma_suffix_mismatch(rn, "-relation-departed"@, rn, "-relation-joined"@, 3);
        }
    }
    if relation_core_spec(e, "-relation-changed"@) is Some {
        assert(hook == rn + "-relation-changed"@);
        if pebble_spec(e) is Some {
            lemma_suffix_mismatch(rn, "-relation-changed"@, w, "-pebble-ready"@, 1);
        }
        if relation_core_spec(e, "-relation-created"@) is Some {
            lemma_suffix_mismatch(rn, "-relation-changed"@, rn, "-relation-created"@, 3);
        }
        if relation_core_spec(e, "-relation-broken"@) is Some {
            lemma_suffix_mismatch(rn, "-relation-changed"@, rn, "-relation-broken"@, 1);
        }
        if relation_core_spec(e, "-relation-joined"@) is Some {
            lemma_suffix_mismatch(rn, "-relation-changed"@, rn, "-relation-joined"@, 3);
        }
        if relation_core_spec(e, "-relation-departed"@) is Some {
            lemma_suffix_mismatch(rn, "-relation-changed"@, rn, "-relation-departed"@, 3);
        }
    }
}

/// The composite relation id is decomposed: every relation variant's numeric
/// id is the numeric half of the JUJU_RELATION_ID variable.
pub open spec fn relation_id_matches(e: EnvModel, id: u32) -> bool {
    &&& env_lookup(e, "JUJU_RELATION_ID"@) matches Some(rid) && split_relation_spec(rid) matches Some(
        p,
    ) && p.1 == id
}

/// Every relation classification carries the numeric half of the composite
/// relation id, decomposed from the JUJU_RELATION_ID variable; an id whose
/// numeric half does not parse never yields a relation variant.
pub proof fn lemma_relation_id_decomposed(e: EnvModel)
    ensures
        classify(e) matches HookContextView::RelationCreated(v, _) ==> relation_id_matches(
            e,
            v.relation_id,
        ),
        classify(e) matches HookContextView::RelationBroken(v, _) ==> relation_id_matches(
            e,
            v.relation_id,
        ),
        classify(e) matches HookContextView::RelationJoined(v, _) ==> relation_id_matches(
            e,
            v.relation_id,
        ),
        classify(e) matches HookContextView::RelationDeparted(v, _) ==> relation_id_matches(
            e,
            v.relation_id,
        ),
        classify(e) matches HookContextView::RelationChanged(v, _) ==> relation_id_matches(
            e,
            v.relation_id,
        ),
{
}

/// Missing or malformed deployment metadata forces the unrecognized outcome,
/// whatever the hook-name variable holds, and the outcome carries the whole
/// snapshot.
pub proof fn lemma_metadata_failure_unrecognized(e: EnvModel)
    requires
        metadata_spec(e) is None,
    ensures
        classify(e) == HookContextView::InvalidContext("deployment context invalid"@, e),
{
}

} // verus!
