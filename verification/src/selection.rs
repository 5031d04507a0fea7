//! Model selection: the decisions of the loop that drives the backend toward
//! serving a requested model.
//!
//! The loop itself waits and talks to the engine, which this module does not
//! do. On each round it is handed the time that has passed and the state it
//! observed, and says what the round comes to.

use crate::catalog::{expand, spec_resolve, StaticModelLoader};
use crate::env::EnvMap;
use crate::llamacpp::{
    ConfigArgsModel, LlamaCppConfig, LlamaCppConfigArgs, LlamaCppProcessState, RunConfigModel,
};
use crate::llmodels::ListModel;
use crate::modellist::{entries_data, entries_models, names_of, ModelList};
use crate::process::{ProcessConfig, ProcessState, StateModel};
use crate::text::join;
use vstd::prelude::*;
use vstd::string::*;

verus! {

/// What one round of the loop comes to.
#[derive(Debug, Clone)]
pub enum Convergence {
    /// The requested model is being served: done, with success.
    Served,
    /// The deadline has passed: done, with failure.
    TimedOut,
    /// The catalog does not know the requested model: done, with failure.
    UnknownModel,
    /// Ask the engine to start this configuration, wait one tick, and come
    /// back.
    Start(LlamaCppConfig),
}

/// Mathematical model of [`Convergence`].
pub ghost enum ConvergenceModel {
    Served,
    TimedOut,
    UnknownModel,
    Start(RunConfigModel),
}

impl View for Convergence {
    type V = ConvergenceModel;

    open spec fn view(&self) -> ConvergenceModel {
        match *self {
            Convergence::Served => ConvergenceModel::Served,
            Convergence::TimedOut => ConvergenceModel::TimedOut,
            Convergence::UnknownModel => ConvergenceModel::UnknownModel,
            Convergence::Start(c) => ConvergenceModel::Start(c@),
        }
    }
}

/// The settings every launch shares at a given moment.
pub ghost struct SettingsModel {
    pub env: Map<Seq<char>, Seq<char>>,
    pub parallel: u8,
    pub threads: i8,
}

/// The configuration that would be sent for an arguments block under the
/// given settings.
pub open spec fn would_be(args: ConfigArgsModel, settings: SettingsModel) -> RunConfigModel {
    RunConfigModel {
        env: settings.env,
        args,
        parallel: settings.parallel,
        threads: settings.threads,
    }
}

/// Whether the observed state serves the requested alias just as it would be
/// launched under the given settings.
pub open spec fn serves(
    observed: StateModel<RunConfigModel>,
    requested: Seq<char>,
    settings: SettingsModel,
) -> bool {
    match observed {
        StateModel::Running(c) => c.args.alias == requested && would_be(c.args, settings) == c,
        _ => false,
    }
}

/// What a round comes to once the deadline is known not to have passed.
pub open spec fn spec_decide(
    observed: StateModel<RunConfigModel>,
    requested: Seq<char>,
    settings: SettingsModel,
    resolved: Option<ConfigArgsModel>,
) -> ConvergenceModel {
    if serves(observed, requested, settings) {
        ConvergenceModel::Served
    } else {
        match resolved {
            Some(args) => ConvergenceModel::Start(would_be(args, settings)),
            None => ConvergenceModel::UnknownModel,
        }
    }
}

/// What a round comes to.
pub open spec fn spec_round(
    elapsed_ms: u64,
    timeout_ms: u64,
    observed: StateModel<RunConfigModel>,
    requested: Seq<char>,
    settings: SettingsModel,
    resolved: Option<ConfigArgsModel>,
) -> ConvergenceModel {
    if elapsed_ms >= timeout_ms {
        ConvergenceModel::TimedOut
    } else {
        spec_decide(observed, requested, settings, resolved)
    }
}

/// What a round comes to when any running model will do.
pub open spec fn spec_round_any(
    elapsed_ms: u64,
    timeout_ms: u64,
    observed: StateModel<RunConfigModel>,
    default_alias: Seq<char>,
    settings: SettingsModel,
    resolved: Option<ConfigArgsModel>,
) -> ConvergenceModel {
    if observed is Running {
        ConvergenceModel::Served
    } else {
        spec_round(elapsed_ms, timeout_ms, observed, default_alias, settings, resolved)
    }
}

/// The wait between two rounds, in milliseconds.
pub const TICK_MS: u64 = 500;

/// What the request surface asks of model selection.
pub trait ModelsServiceInPort {
    /// One round toward serving any model, the default one if none runs.
    fn ensure_any_model_is_served(
        &self,
        observed: &LlamaCppProcessState,
        default_model_alias: &str,
        elapsed_ms: u64,
        timeout_ms: u64,
    ) -> Convergence;

    /// One round toward serving the requested model.
    fn ensure_requested_model_is_served(
        &self,
        observed: &LlamaCppProcessState,
        requested_model: &str,
        elapsed_ms: u64,
        timeout_ms: u64,
    ) -> Convergence;

    /// The model list shown to clients.
    fn get_models(&self, created: u64) -> ModelList;

    /// The names of the models shown to clients, joined by commas.
    fn get_model_names(&self, created: u64) -> String;

    /// The alias used when a request names no model.
    fn get_default_model_alias(&self) -> String;
}

/// Model selection over a catalog, under settings that requests may change.
#[derive(Debug, Clone)]
pub struct DefaultModelsService {
    model_loader: StaticModelLoader,
    llamacpp_parallel_processings: u8,
    threads: i8,
    environment_args: EnvMap,
    default_model_alias: String,
}

impl DefaultModelsService {
    /// The catalog.
    pub closed spec fn loader(&self) -> StaticModelLoader {
        self.model_loader
    }

    /// The settings every launch shares.
    pub closed spec fn settings(&self) -> SettingsModel {
        SettingsModel {
            env: self.environment_args@,
            parallel: self.llamacpp_parallel_processings,
            threads: self.threads,
        }
    }

    /// The alias used when a request names no model.
    pub closed spec fn default_alias(&self) -> Seq<char> {
        self.default_model_alias@
    }

    /// What the catalog resolves an alias to.
    pub open spec fn resolved(&self, alias: Seq<char>) -> Option<ConfigArgsModel> {
        spec_resolve(self.loader().definitions(), self.loader().spec_api_key(), alias)
    }

    /// A service over the given catalog and settings.
    pub fn create_service(
        model_loader: StaticModelLoader,
        llamacpp_parallel_processings: u8,
        threads: i8,
        environment_args: EnvMap,
        default_model_alias: String,
    ) -> (service: Self)
        ensures
            service.loader() == model_loader,
            service.settings() == (SettingsModel {
                env: environment_args@,
                parallel: llamacpp_parallel_processings,
                threads,
            }),
            service.default_alias() == default_model_alias@,
    {
        DefaultModelsService {
            model_loader,
            llamacpp_parallel_processings,
            threads,
            environment_args,
            default_model_alias,
        }
    }

    /// The configuration that would be sent for an arguments block under the
    /// current settings.
    pub fn create_run_config_from_args_and_current_state(
        &self,
        llamacpp_config_args: LlamaCppConfigArgs,
    ) -> (config: LlamaCppConfig)
        ensures
            config@ == would_be(llamacpp_config_args@, self.settings()),
    {
        LlamaCppConfig {
            args: llamacpp_config_args,
            env: self.environment_args.duplicate(),
            parallel: self.llamacpp_parallel_processings,
            threads: self.threads,
        }
    }

    /// Sets how many concurrent slots the backend is to offer from now on;
    /// says whether that changed anything.
    pub fn set_parallel_backend_requests(&mut self, parallel_backend_requests: u8) -> (changed: bool)
        ensures
            changed == (old(self).settings().parallel != parallel_backend_requests),
            final(self).settings() == (SettingsModel {
                parallel: parallel_backend_requests,
                ..old(self).settings()
            }),
            final(self).loader() == old(self).loader(),
            final(self).default_alias() == old(self).default_alias(),
    {
        let changed = parallel_backend_requests != self.llamacpp_parallel_processings;
        if changed {
            self.llamacpp_parallel_processings = parallel_backend_requests;
        }
        changed
    }

    /// How many concurrent slots the backend is to offer.
    pub fn parallel_backend_requests(&self) -> (n: u8)
        ensures
            n == self.settings().parallel,
    {
        self.llamacpp_parallel_processings
    }

    /// Whether the deadline has passed.
    pub fn deadline_reached(elapsed_ms: u64, timeout_ms: u64) -> (r: bool)
        ensures
            r == (elapsed_ms >= timeout_ms),
    {
        elapsed_ms >= timeout_ms
    }

    /// Whether the observed state serves the requested alias just as it
    /// would be launched now.
    pub fn is_served(&self, observed: &LlamaCppProcessState, requested_model: &str) -> (r: bool)
        ensures
            r == serves(observed@, requested_model@, self.settings()),
    {
        match observed {
            ProcessState::Running(running_config) => {
                if running_config.args.alias == String::from_str(requested_model) {
                    let runconfig_as_requested = self.create_run_config_from_args_and_current_state(
                        running_config.args.duplicate(),
                    );
                    runconfig_as_requested.same_config(running_config)
                } else {
                    false
                }
            },
            _ => false,
        }
    }

    /// The alias of the model that is running, if one is.
    pub fn get_running_model_alias(observed: &LlamaCppProcessState) -> (alias: Option<String>)
        ensures
            match observed@ {
                StateModel::Running(c) => alias is Some && alias->0@ == c.args.alias,
                _ => alias is None,
            },
    {
        match observed {
            ProcessState::Running(c) => Some(c.args.alias.clone()),
            _ => None,
        }
    }
}

impl ModelsServiceInPort for DefaultModelsService {
    fn ensure_any_model_is_served(
        &self,
        observed: &LlamaCppProcessState,
        default_model_alias: &str,
        elapsed_ms: u64,
        timeout_ms: u64,
    ) -> (round: Convergence)
        ensures
            round@ == spec_round_any(
                elapsed_ms,
                timeout_ms,
                observed@,
                default_model_alias@,
                self.settings(),
                self.resolved(default_model_alias@),
            ),
    {
        match observed {
            ProcessState::Running(_) => Convergence::Served,
            _ => self.ensure_requested_model_is_served(
                observed,
                default_model_alias,
                elapsed_ms,
                timeout_ms,
            ),
        }
    }

    fn ensure_requested_model_is_served(
        &self,
        observed: &LlamaCppProcessState,
        requested_model: &str,
        elapsed_ms: u64,
        timeout_ms: u64,
    ) -> (round: Convergence)
        ensures
            round@ == spec_round(
                elapsed_ms,
                timeout_ms,
                observed@,
                requested_model@,
                self.settings(),
                self.resolved(requested_model@),
            ),
    {
        if Self::deadline_reached(elapsed_ms, timeout_ms) {
            return Convergence::TimedOut;
        }
        if self.is_served(observed, requested_model) {
            return Convergence::Served;
        }
        match self.model_loader.get_model_configuration(requested_model) {
            Ok(llamacpp_config_args) => Convergence::Start(
                self.create_run_config_from_args_and_current_state(llamacpp_config_args),
            ),
            Err(_) => Convergence::UnknownModel,
        }
    }

    fn get_models(&self, created: u64) -> (list: ModelList)
        ensures
            list@ == (ListModel {
                models: entries_models(expand(self.loader().definitions())),
                object: "list"@,
                data: entries_data(expand(self.loader().definitions()), created),
            }),
    {
        let entries = self.model_loader.get_model_configurations();
        let mut list = ModelList::with_capacity(entries.len());
        let mut i: usize = 0;
        let ghost all = expand(self.loader().definitions());
        assert(list@.models =~= entries_models(all).take(0));
        assert(list@.data =~= entries_data(all, created).take(0));
        while i < entries.len()
            invariant
                i <= entries.len(),
                all == crate::catalog::definitions_view(entries@),
                list@.object == "list"@,
                list@.models == entries_models(all).take(i as int),
                list@.data == entries_data(all, created).take(i as int),
            decreases entries.len() - i,
        {
            list.add_model_configuration(&entries[i], created);
            assert(list@.models =~= entries_models(all).take(i + 1));
            assert(list@.data =~= entries_data(all, created).take(i + 1));
            i += 1;
        }
        assert(entries_models(all).take(i as int) =~= entries_models(all));
        assert(entries_data(all, created).take(i as int) =~= entries_data(all, created));
        list
    }

    fn get_model_names(&self, created: u64) -> (names: String)
        ensures
            names@ == join(
                names_of(entries_models(expand(self.loader().definitions()))),
                ","@,
            ),
    {
        self.get_models(created).names()
    }

    fn get_default_model_alias(&self) -> (alias: String)
        ensures
            alias@ == self.default_alias(),
    {
        self.default_model_alias.clone()
    }
}

/// One reading of the loop: the time that had passed and the state observed.
pub ghost struct Reading {
    pub elapsed_ms: u64,
    pub observed: StateModel<RunConfigModel>,
}

/// What the round at a reading comes to.
pub open spec fn round_at(
    reading: Reading,
    timeout_ms: u64,
    requested: Seq<char>,
    settings: SettingsModel,
    resolved: Option<ConfigArgsModel>,
) -> ConvergenceModel {
    spec_round(reading.elapsed_ms, timeout_ms, reading.observed, requested, settings, resolved)
}

/// The loop returns at reading `k`: every earlier round asked to start and
/// wait, and round `k` does not.
pub open spec fn returns_at(
    readings: Seq<Reading>,
    k: int,
    timeout_ms: u64,
    requested: Seq<char>,
    settings: SettingsModel,
    resolved: Option<ConfigArgsModel>,
) -> bool {
    &&& 0 <= k < readings.len()
    &&& !(round_at(readings[k], timeout_ms, requested, settings, resolved) is Start)
    &&& forall|j: int|
        0 <= j < k ==> round_at(
            #[trigger] readings[j],
            timeout_ms,
            requested,
            settings,
            resolved,
        ) is Start
}

/// The first reading is taken within one tick of the call, and each further
/// one within one tick of the reading before it.
pub open spec fn paced(readings: Seq<Reading>, tick_ms: u64) -> bool {
    &&& readings.len() > 0 ==> readings[0].elapsed_ms <= tick_ms
    &&& forall|j: int|
        0 < j < readings.len() ==> (#[trigger] readings[j]).elapsed_ms <= readings[j
            - 1].elapsed_ms + tick_ms
}

/// Timeout bound: a loop whose readings are at most one tick apart returns
/// no later than one tick after the deadline, whatever it observes; and
/// once the deadline has passed, the round says so and nothing is started.
pub proof fn lemma_timeout_bound(
    readings: Seq<Reading>,
    k: int,
    timeout_ms: u64,
    tick_ms: u64,
    requested: Seq<char>,
    settings: SettingsModel,
    resolved: Option<ConfigArgsModel>,
)
    requires
        paced(readings, tick_ms),
        returns_at(readings, k, timeout_ms, requested, settings, resolved),
    ensures
        readings[k].elapsed_ms <= timeout_ms + tick_ms,
        forall|j: int|
            0 <= j < readings.len() && (#[trigger] readings[j]).elapsed_ms >= timeout_ms
                ==> round_at(readings[j], timeout_ms, requested, settings, resolved)
                == ConvergenceModel::TimedOut,
{
    if k > 0 {
        assert(round_at(readings[k - 1], timeout_ms, requested, settings, resolved) is Start);
        assert(readings[k - 1].elapsed_ms < timeout_ms);
    }
}

/// Parallelism change forces a swap: a backend that runs the requested alias
/// under settings that differ from the current ones is not taken as served;
/// the round asks to start the configuration for the current settings.
pub proof fn lemma_changed_settings_force_start(
    running: RunConfigModel,
    settings: SettingsModel,
    resolved: ConfigArgsModel,
)
    requires
        would_be(running.args, settings) != running,
    ensures
        spec_decide(StateModel::Running(running), running.args.alias, settings, Some(resolved))
            == ConvergenceModel::Start(would_be(resolved, settings)),
{
}

} // verus!
