//! Plugin lifecycle: all plugins are initialised in order, then register their
//! hooks in order; a failure shuts down the initialised ones in reverse order.

use crate::application::hook_registry::{only, HookRegistry};
use crate::domain::error::{AgentError, AgentErrorView, ErrorSource, Result};
use crate::domain::hook::HookEvent;
use crate::json::JsonValue;
use crate::ports::plugin::{PluginContext, PluginContextView, PluginDescriptor, PluginView, RegistrationView};
use crate::registry::Registry;
use vstd::prelude::*;
use vstd::string::*;

verus! {

/// A plugin registered with the agent, and its configuration. The plugin itself
/// belongs to the host, which finds it by its position.
#[derive(Debug, PartialEq, Eq)]
pub struct ConfiguredPlugin {
    /// Description of the plugin.
    pub descriptor: PluginDescriptor,
    /// Configuration handed to the plugin.
    pub config: JsonValue,
}

/// Model of [`ConfiguredPlugin`].
#[verifier::ext_equal]
pub struct ConfiguredView {
    pub descriptor: PluginView,
    pub config: Seq<char>,
}

impl DeepView for ConfiguredPlugin {
    type V = ConfiguredView;

    open spec fn deep_view(&self) -> ConfiguredView {
        ConfiguredView {
            descriptor: self.descriptor.deep_view(),
            config: self.config.deep_view(),
        }
    }
}

/// The ids of plugins.
pub open spec fn plugin_ids(plugins: Seq<ConfiguredView>) -> Seq<Seq<char>> {
    plugins.map_values(|plugin: ConfiguredView| plugin.descriptor.id)
}

/// The first id that occurs a second time, if there is one.
pub open spec fn repeated(ids: Seq<Seq<char>>) -> Option<Seq<char>>
    decreases ids.len(),
{
    if ids.len() == 0 {
        None
    } else {
        match repeated(ids.drop_last()) {
            Some(id) => Some(id),
            None => if ids.drop_last().contains(ids.last()) {
                Some(ids.last())
            } else {
                None
            },
        }
    }
}

/// How far the start of the plugins has come.
#[derive(Debug, PartialEq, Eq)]
pub enum PluginStage {
    /// This plugin is to be initialised.
    Initialize(usize),
    /// This plugin is to register its hooks.
    Apply(usize),
    /// So many plugins are still to be shut down, the last one first.
    RollBack(usize, AgentError),
    /// All plugins have started.
    Started,
}

/// Model of [`PluginStage`].
#[verifier::ext_equal]
pub enum PluginStageView {
    Initialize(usize),
    Apply(usize),
    RollBack(usize, AgentErrorView),
    Started,
}

impl DeepView for PluginStage {
    type V = PluginStageView;

    open spec fn deep_view(&self) -> PluginStageView {
        match self {
            PluginStage::Initialize(index) => PluginStageView::Initialize(*index),
            PluginStage::Apply(index) => PluginStageView::Apply(*index),
            PluginStage::RollBack(left, error) => PluginStageView::RollBack(
                *left,
                error.deep_view(),
            ),
            PluginStage::Started => PluginStageView::Started,
        }
    }
}

/// What the start of the plugins needs from the host.
#[derive(Debug)]
pub enum PluginAction {
    /// Initialise a plugin, and report the outcome.
    Initialize {
        /// Position of the plugin.
        index: usize,
        /// Its configuration.
        config: JsonValue,
    },
    /// Let a plugin register its hooks, and report the context.
    Apply {
        /// Position of the plugin.
        index: usize,
        /// Where the plugin registers its hooks.
        context: PluginContext,
    },
    /// Shut a plugin down, and report that it was tried.
    ShutDown {
        /// Position of the plugin.
        index: usize,
    },
    /// Nothing more.
    Finish,
}

/// Model of [`PluginAction`].
#[verifier::ext_equal]
#[allow(inconsistent_fields)]
pub enum PluginActionView {
    Initialize { index: usize, config: Seq<char> },
    Apply { index: usize, context: PluginContextView },
    ShutDown { index: usize },
    Finish,
}

impl DeepView for PluginAction {
    type V = PluginActionView;

    open spec fn deep_view(&self) -> PluginActionView {
        match self {
            PluginAction::Initialize { index, config } => PluginActionView::Initialize {
                index: *index,
                config: config.deep_view(),
            },
            PluginAction::Apply { index, context } => PluginActionView::Apply {
                index: *index,
                context: context.deep_view(),
            },
            PluginAction::ShutDown { index } => PluginActionView::ShutDown { index: *index },
            PluginAction::Finish => PluginActionView::Finish,
        }
    }
}

/// What a start in a stage needs.
pub open spec fn plugin_action(
    plugins: Seq<ConfiguredView>,
    stage: PluginStageView,
) -> PluginActionView {
    match stage {
        PluginStageView::Initialize(index) => PluginActionView::Initialize {
            index,
            config: plugins[index as int].config,
        },
        PluginStageView::Apply(index) => PluginActionView::Apply {
            index,
            context: PluginContextView {
                descriptor: plugins[index as int].descriptor,
                plugin_config: plugins[index as int].config,
                registrations: Seq::empty(),
                first_error: None,
            },
        },
        PluginStageView::RollBack(left, _) => if left > 0 {
            PluginActionView::ShutDown { index: (left - 1) as usize }
        } else {
            PluginActionView::Finish
        },
        PluginStageView::Started => PluginActionView::Finish,
    }
}

/// The first stage for so many plugins.
pub open spec fn first_stage(count: int) -> PluginStageView {
    if count > 0 {
        PluginStageView::Initialize(0)
    } else {
        PluginStageView::Started
    }
}

/// The stage after a plugin has been initialised, or could not be.
pub open spec fn after_initialize(
    plugins: Seq<ConfiguredView>,
    index: usize,
    result: std::result::Result<(), Seq<Seq<char>>>,
) -> PluginStageView {
    match result {
        Ok(_) => if index + 1 < plugins.len() {
            PluginStageView::Initialize((index + 1) as usize)
        } else {
            PluginStageView::Apply(0)
        },
        Err(source) => PluginStageView::RollBack(
            index,
            AgentErrorView::PluginInitFailed { id: plugins[index as int].descriptor.id, source },
        ),
    }
}

/// The stage after a plugin has registered its hooks, or broken the contract.
pub open spec fn after_apply(
    plugins: Seq<ConfiguredView>,
    index: usize,
    context: PluginContextView,
) -> PluginStageView {
    match context.first_error {
        Some(error) => PluginStageView::RollBack(plugins.len() as usize, error),
        None => if index + 1 < plugins.len() {
            PluginStageView::Apply((index + 1) as usize)
        } else {
            PluginStageView::Started
        },
    }
}

/// Whether a stage speaks of plugins that are there.
pub open spec fn stage_in_range(count: int, stage: PluginStageView) -> bool {
    match stage {
        PluginStageView::Initialize(index) => index < count,
        PluginStageView::Apply(index) => index < count,
        PluginStageView::RollBack(left, _) => left <= count,
        PluginStageView::Started => true,
    }
}

/// The start of all plugins.
pub struct PluginBuild {
    /// The plugins, in order of registration.
    pub plugins: Vec<ConfiguredPlugin>,
    /// The hooks registered so far.
    pub hooks: HookRegistry,
    /// How far the start has come.
    pub stage: PluginStage,
}

/// Starts plugins.
#[derive(Debug, Clone, Copy)]
pub struct PluginManager;

impl PluginManager {
    /// A plugin manager.
    pub fn new() -> (r: Self)
        ensures
            r == PluginManager,
    {
        PluginManager
    }

    /// Begins the start of plugins; an id must not occur twice.
    pub fn build(self, plugins: Vec<ConfiguredPlugin>) -> (r: Result<PluginBuild>)
        ensures
            match repeated(plugin_ids(plugins.deep_view())) {
                Some(id) => r matches Err(error) && error.deep_view()
                    == (AgentErrorView::NameConflict { kind: "plugin"@, name: id }),
                None => r matches Ok(build) && {
                    &&& build.plugins == plugins
                    &&& build.stage.deep_view() == first_stage(plugins@.len() as int)
                    &&& stage_in_range(plugins@.len() as int, build.stage.deep_view())
                    &&& forall|event: HookEvent| #[trigger]
                        build.hooks.registered(event) == Seq::<RegistrationView>::empty()
                },
            },
    {
        match collect_plugin_descriptors(&plugins) {
            Ok(_) => {},
            Err(error) => {
                return Err(error);
            },
        }
        let stage = if plugins.len() > 0 {
            PluginStage::Initialize(0)
        } else {
            PluginStage::Started
        };
        Ok(PluginBuild { plugins, hooks: HookRegistry::new(), stage })
    }
}

/// Checks that no plugin id occurs twice.
pub fn collect_plugin_descriptors(plugins: &Vec<ConfiguredPlugin>) -> (r: Result<()>)
    ensures
        match repeated(plugin_ids(plugins.deep_view())) {
            Some(id) => r matches Err(error) && error.deep_view() == (AgentErrorView::NameConflict {
                kind: "plugin"@,
                name: id,
            }),
            None => r is Ok,
        },
{
    let ghost ids = plugin_ids(plugins.deep_view());
    let mut seen: Registry<()> = Registry::new();
    let mut i: usize = 0;
    proof {
        assert(seen.keys() =~= ids.take(0));
    }
    while i < plugins.len()
        invariant
            i <= plugins.len(),
            ids == plugin_ids(plugins.deep_view()),
            ids.len() == plugins.len(),
            seen.keys() == ids.take(i as int),
            repeated(ids.take(i as int)) is None,
        decreases plugins.len() - i,
    {
        let id = plugins[i].descriptor.id.as_str();
        let ghost front = ids.take(i + 1);
        proof {
            assert(front.drop_last() =~= ids.take(i as int));
            assert(ids[i as int] == id@);
            assert(front.last() == id@);
        }
        if seen.contains(id) {
            proof {
                lemma_repeated_prefix(ids, i + 1);
            }
            return Err(AgentError::NameConflict { kind: "plugin", name: id.to_owned() });
        }
        seen = seen.insert(id.to_owned(), ());
        proof {
            assert(seen.keys() =~= front);
        }
        i += 1;
    }
    proof {
        assert(ids.take(ids.len() as int) =~= ids);
    }
    Ok(())
}

/// The first repetition in a prefix is the first repetition.
pub proof fn lemma_repeated_prefix(ids: Seq<Seq<char>>, count: int)
    requires
        0 <= count <= ids.len(),
        repeated(ids.take(count)) is Some,
    ensures
        repeated(ids) == repeated(ids.take(count)),
    decreases ids.len() - count,
{
    if count == ids.len() {
        assert(ids.take(count) =~= ids);
    } else {
        assert(ids.take(count + 1).drop_last() =~= ids.take(count));
        lemma_repeated_prefix(ids, count + 1);
    }
}

impl PluginBuild {
    /// What the start needs next.
    pub fn next(&self) -> (r: PluginAction)
        requires
            stage_in_range(self.plugins@.len() as int, self.stage.deep_view()),
        ensures
            r.deep_view() == plugin_action(self.plugins.deep_view(), self.stage.deep_view()),
    {
        match &self.stage {
            PluginStage::Initialize(index) => PluginAction::Initialize {
                index: *index,
                config: self.plugins[*index].config.clone(),
            },
            PluginStage::Apply(index) => PluginAction::Apply {
                index: *index,
                context: PluginContext::new(
                    self.plugins[*index].descriptor.clone(),
                    self.plugins[*index].config.clone(),
                ),
            },
            PluginStage::RollBack(left, _) => {
                if *left > 0 {
                    PluginAction::ShutDown { index: *left - 1 }
                } else {
                    PluginAction::Finish
                }
            },
            PluginStage::Started => PluginAction::Finish,
        }
    }

    /// Takes the outcome of initialising a plugin.
    pub fn initialized(self, result: std::result::Result<(), ErrorSource>) -> (r: Self)
        requires
            stage_in_range(self.plugins@.len() as int, self.stage.deep_view()),
            self.stage is Initialize,
        ensures
            r.plugins == self.plugins,
            r.hooks == self.hooks,
            r.stage.deep_view() == after_initialize(
                self.plugins.deep_view(),
                self.stage->Initialize_0,
                crate::application::session_runtime::storage_result(result),
            ),
            stage_in_range(r.plugins@.len() as int, r.stage.deep_view()),
    {
        let PluginBuild { plugins, hooks, stage } = self;
        let index: usize = match stage {
            PluginStage::Initialize(index) => index,
            _ => 0,
        };
        let count: usize = plugins.len();
        let stage = match result {
            Ok(_) => {
                if index + 1 < count {
                    PluginStage::Initialize(index + 1)
                } else {
                    PluginStage::Apply(0)
                }
            },
            Err(source) => PluginStage::RollBack(
                index,
                AgentError::PluginInitFailed { id: plugins[index].descriptor.id.clone(), source },
            ),
        };
        PluginBuild { plugins, hooks, stage }
    }

    /// Takes the context in which a plugin has registered its hooks.
    pub fn applied(self, context: PluginContext) -> (r: Self)
        requires
            stage_in_range(self.plugins@.len() as int, self.stage.deep_view()),
            self.stage is Apply,
        ensures
            r.plugins == self.plugins,
            r.stage.deep_view() == after_apply(
                self.plugins.deep_view(),
                self.stage->Apply_0,
                context.deep_view(),
            ),
            forall|event: HookEvent| #[trigger]
                r.hooks.registered(event) == (if context.deep_view().first_error is None {
                    self.hooks.registered(event) + only(context.deep_view().registrations, event)
                } else {
                    self.hooks.registered(event)
                }),
            stage_in_range(r.plugins@.len() as int, r.stage.deep_view()),
    {
        let PluginBuild { plugins, hooks, stage } = self;
        let index: usize = match stage {
            PluginStage::Apply(index) => index,
            _ => 0,
        };
        let count: usize = plugins.len();
        match context.finish() {
            Ok(registrations) => {
                let hooks = hooks.extend(registrations);
                let stage = if index + 1 < count {
                    PluginStage::Apply(index + 1)
                } else {
                    PluginStage::Started
                };
                PluginBuild { plugins, hooks, stage }
            },
            Err(error) => PluginBuild { plugins, hooks, stage: PluginStage::RollBack(count, error) },
        }
    }

    /// Takes note that a plugin has been shut down, or that it was tried.
    pub fn shut_down(self) -> (r: Self)
        requires
            stage_in_range(self.plugins@.len() as int, self.stage.deep_view()),
            self.stage matches PluginStage::RollBack(left, _) && left > 0,
        ensures
            r.plugins == self.plugins,
            r.hooks == self.hooks,
            r.stage.deep_view() == PluginStageView::RollBack(
                (self.stage->RollBack_0 - 1) as usize,
                self.stage->RollBack_1.deep_view(),
            ),
            stage_in_range(r.plugins@.len() as int, r.stage.deep_view()),
    {
        let PluginBuild { plugins, hooks, stage } = self;
        let stage = match stage {
            PluginStage::RollBack(left, error) => PluginStage::RollBack(left - 1, error),
            other => other,
        };
        PluginBuild { plugins, hooks, stage }
    }

    /// The started plugins and their hooks, or why they could not be started.
    pub fn finish(self) -> (r: Result<(Vec<PluginDescriptor>, HookRegistry)>)
        requires
            self.stage is Started || self.stage is RollBack,
        ensures
            match self.stage.deep_view() {
                PluginStageView::RollBack(_, error) => r matches Err(e) && e.deep_view() == error,
                _ => r matches Ok(started) && {
                    &&& started.0.deep_view() == self.plugins.deep_view().map_values(
                        |plugin: ConfiguredView| plugin.descriptor,
                    )
                    &&& started.1 == self.hooks
                },
            },
    {
        match self.stage {
            PluginStage::RollBack(_, error) => Err(error),
            _ => {
                let descriptors = descriptors_of(&self.plugins);
                Ok((descriptors, self.hooks))
            },
        }
    }
}

fn descriptors_of(plugins: &Vec<ConfiguredPlugin>) -> (r: Vec<PluginDescriptor>)
    ensures
        r.deep_view() == plugins.deep_view().map_values(
            |plugin: ConfiguredView| plugin.descriptor,
        ),
{
    let ghost wanted = plugins.deep_view().map_values(|plugin: ConfiguredView| plugin.descriptor);
    let mut out: Vec<PluginDescriptor> = Vec::new();
    let mut i: usize = 0;
    while i < plugins.len()
        invariant
            i <= plugins.len(),
            wanted == plugins.deep_view().map_values(|plugin: ConfiguredView| plugin.descriptor),
            out.deep_view() =~= wanted.take(i as int),
        decreases plugins.len() - i,
    {
        let ghost before = out.deep_view();
        out.push(plugins[i].descriptor.clone());
        proof {
            assert(out.deep_view() =~= before.push(wanted[i as int]));
        }
        i += 1;
    }
    proof {
        assert(wanted.take(wanted.len() as int) =~= wanted);
    }
    out
}

/// The positions of `count` plugins in the order in which they are shut down.
pub fn shutdown_order(count: usize) -> (r: Vec<usize>)
    ensures
        r@ == Seq::new(count as nat, |i: int| (count - 1 - i) as usize),
{
    let ghost wanted = Seq::new(count as nat, |i: int| (count - 1 - i) as usize);
    let mut out: Vec<usize> = Vec::new();
    let mut left: usize = count;
    while left > 0
        invariant
            left <= count,
            wanted == Seq::new(count as nat, |i: int| (count - 1 - i) as usize),
            out@ =~= wanted.take(count - left),
        decreases left,
    {
        left -= 1;
        out.push(left);
    }
    out
}

/// The declared hooks without a handler.
pub open spec fn without_handler(
    declared: Seq<HookEvent>,
    registry: HookRegistry,
    plugin_id: Seq<char>,
) -> Seq<HookEvent>
    decreases declared.len(),
{
    if declared.len() == 0 {
        Seq::empty()
    } else {
        let before = without_handler(declared.drop_last(), registry, plugin_id);
        let event = declared.last();
        if exists|i: int|
            0 <= i < registry.registered(event).len() && (#[trigger] registry.registered(
                event,
            )[i]).plugin_id == plugin_id {
            before
        } else {
            before.push(event)
        }
    }
}

/// The hooks that a plugin declares but has no handler for.
pub fn missing_hooks(descriptor: &PluginDescriptor, registry: &HookRegistry) -> (r: Vec<HookEvent>)
    ensures
        r@ == without_handler(descriptor.tapped_hooks@, *registry, descriptor.id@),
{
    let ghost all = descriptor.tapped_hooks@;
    let mut out: Vec<HookEvent> = Vec::new();
    let mut i: usize = 0;
    proof {
        assert(out@ =~= without_handler(all.take(0), *registry, descriptor.id@));
    }
    while i < descriptor.tapped_hooks.len()
        invariant
            i <= descriptor.tapped_hooks.len(),
            all == descriptor.tapped_hooks@,
            out@ == without_handler(all.take(i as int), *registry, descriptor.id@),
        decreases descriptor.tapped_hooks.len() - i,
    {
        let event = descriptor.tapped_hooks[i];
        proof {
            assert(all.take(i + 1).drop_last() =~= all.take(i as int));
            assert(all.take(i + 1).last() == event);
        }
        if !registry.has_registration(event, descriptor.id.as_str()) {
            out.push(event);
        }
        i += 1;
    }
    proof {
        assert(all.take(all.len() as int) =~= all);
    }
    out
}

// ---------------------------------------------------------------------------
// Laws
// ---------------------------------------------------------------------------
/// A plugin that cannot be initialised is not shut down itself: exactly the
/// plugins in front of it are, and the last of them first.
pub proof fn law_failed_initialize_rolls_back(
    plugins: Seq<ConfiguredView>,
    index: usize,
    source: Seq<Seq<char>>,
)
    requires
        index < plugins.len(),
    ensures
        after_initialize(plugins, index, Err(source)) == PluginStageView::RollBack(
            index,
            AgentErrorView::PluginInitFailed { id: plugins[index as int].descriptor.id, source },
        ),
{
}

/// A plugin that breaks the hook contract has every plugin shut down.
pub proof fn law_broken_contract_rolls_back_all(
    plugins: Seq<ConfiguredView>,
    index: usize,
    context: PluginContextView,
    error: AgentErrorView,
)
    requires
        index < plugins.len() <= usize::MAX,
        context.first_error == Some(error),
    ensures
        after_apply(plugins, index, context) == PluginStageView::RollBack(
            plugins.len() as usize,
            error,
        ),
{
}

/// The stage of a roll-back after so many plugins have been shut down.
pub open spec fn rolled_back(stage: PluginStageView, times: nat) -> PluginStageView
    decreases times,
{
    if times == 0 {
        stage
    } else {
        match rolled_back(stage, (times - 1) as nat) {
            PluginStageView::RollBack(left, error) => PluginStageView::RollBack(
                (left - 1) as usize,
                error,
            ),
            other => other,
        }
    }
}

/// A roll-back shuts plugins down in the reverse of their order, each once, and
/// keeps the error that caused it.
pub proof fn law_rollback_runs_backwards(
    plugins: Seq<ConfiguredView>,
    count: usize,
    error: AgentErrorView,
    step: nat,
)
    requires
        step <= count,
    ensures
        rolled_back(PluginStageView::RollBack(count, error), step) == PluginStageView::RollBack(
            (count - step) as usize,
            error,
        ),
        plugin_action(plugins, rolled_back(PluginStageView::RollBack(count, error), step)) == (
        if step < count {
            PluginActionView::ShutDown { index: (count - step - 1) as usize }
        } else {
            PluginActionView::Finish
        }),
    decreases step,
{
    if step > 0 {
        law_rollback_runs_backwards(plugins, count, error, (step - 1) as nat);
    }
}

/// A start that accepts its plugins has no id twice.
pub proof fn law_plugin_ids_are_unique(ids: Seq<Seq<char>>)
    ensures
        repeated(ids) is None <==> ids.no_duplicates(),
    decreases ids.len(),
{
    if ids.len() > 0 {
        let front = ids.drop_last();
        law_plugin_ids_are_unique(front);
        if repeated(ids) is None {
            assert forall|i: int, j: int|
                0 <= i < ids.len() && 0 <= j < ids.len() && i != j implies ids[i] != ids[j] by {
                if i < front.len() && j < front.len() {
                    assert(front[i] == ids[i] && front[j] == ids[j]);
                } else if i < front.len() {
                    assert(front[i] == ids[i]);
                } else {
                    assert(front[j] == ids[j]);
                }
            }
        }
        if ids.no_duplicates() {
            assert(front.no_duplicates());
            if front.contains(ids.last()) {
                let i = choose|i: int| 0 <= i < front.len() && front[i] == ids.last();
                assert(ids[i] == ids[ids.len() - 1]);
            }
        }
    }
}

} // verus!
