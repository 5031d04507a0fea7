//! What an administrator sends and is shown: launch configurations and the
//! state of the backend, as plain records.

use crate::cli::SamplingValue;
use crate::context_size::ContextSize;
use crate::env::EnvMap;
use crate::llamacpp::{
    ConfigArgsModel, LlamaCppConfig, LlamaCppConfigArgs, LlamaCppProcessState, RunConfigModel,
};
use crate::on_off::{opt_on_off_view, OnOffModel, OnOffValue};
use crate::process::{ProcessState, StateModel};
use crate::text::opt_text_view;
use vstd::prelude::*;
use vstd::string::*;

verus! {

/// Slots offered by the backend when a record names no number.
pub const DEFAULT_PARALLEL: u8 = 1;

/// Threads used by the backend when a record names no number: left to the
/// backend.
pub const DEFAULT_THREADS: i8 = -1;

/// A launch configuration as it is sent and shown.
#[derive(Debug, Clone)]
pub struct LlamaCppRunConfigDto {
    pub env: EnvMap,
    pub alias: String,
    pub model_path: String,
    pub mmproj_path: Option<String>,
    pub prio: Option<u8>,
    pub threads: Option<i8>,
    pub parallel: Option<u8>,
    pub n_gpu_layers: Option<u8>,
    pub ctx_size: Option<ContextSize>,
    pub flash_attn: Option<OnOffValue>,
    pub fit: Option<OnOffValue>,
    pub batch_size: Option<u16>,
    pub ubatch_size: Option<u16>,
    pub cache_type_v: Option<String>,
    pub cache_type_k: Option<String>,
    pub temp: Option<SamplingValue>,
    pub repeat_penalty: Option<SamplingValue>,
    pub presence_penalty: Option<SamplingValue>,
    pub seed: Option<u64>,
    pub min_p: Option<SamplingValue>,
    pub top_k: Option<u16>,
    pub top_p: Option<SamplingValue>,
    pub jinja: bool,
    pub no_mmap: bool,
    pub no_context_shift: bool,
    pub no_cont_batching: bool,
}

/// Mathematical model of [`LlamaCppRunConfigDto`].
pub ghost struct RunConfigDtoModel {
    pub env: Map<Seq<char>, Seq<char>>,
    pub alias: Seq<char>,
    pub model_path: Seq<char>,
    pub mmproj_path: Option<Seq<char>>,
    pub prio: Option<u8>,
    pub threads: Option<i8>,
    pub parallel: Option<u8>,
    pub n_gpu_layers: Option<u8>,
    pub ctx_size: Option<ContextSize>,
    pub flash_attn: Option<OnOffModel>,
    pub fit: Option<OnOffModel>,
    pub batch_size: Option<u16>,
    pub ubatch_size: Option<u16>,
    pub cache_type_v: Option<Seq<char>>,
    pub cache_type_k: Option<Seq<char>>,
    pub temp: Option<SamplingValue>,
    pub repeat_penalty: Option<SamplingValue>,
    pub presence_penalty: Option<SamplingValue>,
    pub seed: Option<u64>,
    pub min_p: Option<SamplingValue>,
    pub top_k: Option<u16>,
    pub top_p: Option<SamplingValue>,
    pub jinja: bool,
    pub no_mmap: bool,
    pub no_context_shift: bool,
    pub no_cont_batching: bool,
}

impl View for LlamaCppRunConfigDto {
    type V = RunConfigDtoModel;

    open spec fn view(&self) -> RunConfigDtoModel {
        RunConfigDtoModel {
            env: self.env@,
            alias: self.alias@,
            model_path: self.model_path@,
            mmproj_path: opt_text_view(self.mmproj_path),
            prio: self.prio,
            threads: self.threads,
            parallel: self.parallel,
            n_gpu_layers: self.n_gpu_layers,
            ctx_size: self.ctx_size,
            flash_attn: opt_on_off_view(self.flash_attn),
            fit: opt_on_off_view(self.fit),
            batch_size: self.batch_size,
            ubatch_size: self.ubatch_size,
            cache_type_v: opt_text_view(self.cache_type_v),
            cache_type_k: opt_text_view(self.cache_type_k),
            temp: self.temp,
            repeat_penalty: self.repeat_penalty,
            presence_penalty: self.presence_penalty,
            seed: self.seed,
            min_p: self.min_p,
            top_k: self.top_k,
            top_p: self.top_p,
            jinja: self.jinja,
            no_mmap: self.no_mmap,
            no_context_shift: self.no_context_shift,
            no_cont_batching: self.no_cont_batching,
        }
    }
}

/// The launch configuration a record stands for, under a key.
pub open spec fn spec_into_domain(d: RunConfigDtoModel, api_key: Seq<char>) -> RunConfigModel {
    RunConfigModel {
        env: d.env,
        parallel: match d.parallel {
            Some(p) => p,
            None => DEFAULT_PARALLEL,
        },
        threads: match d.threads {
            Some(t) => t,
            None => DEFAULT_THREADS,
        },
        args: ConfigArgsModel {
            api_key: Some(api_key),
            alias: d.alias,
            model_path: d.model_path,
            mmproj_path: d.mmproj_path,
            prio: d.prio,
            n_gpu_layers: d.n_gpu_layers,
            jinja: d.jinja,
            ctx_size: d.ctx_size,
            no_mmap: d.no_mmap,
            flash_attn: d.flash_attn,
            fit: d.fit,
            batch_size: d.batch_size,
            ubatch_size: d.ubatch_size,
            cache_type_v: d.cache_type_v,
            cache_type_k: d.cache_type_k,
            no_context_shift: d.no_context_shift,
            no_cont_batching: d.no_cont_batching,
            min_p: d.min_p,
            temp: d.temp,
            repeat_penalty: d.repeat_penalty,
            presence_penalty: d.presence_penalty,
            seed: d.seed,
            top_k: d.top_k,
            top_p: d.top_p,
        },
    }
}

/// The record of a launch configuration: everything but the key.
pub open spec fn spec_from_domain(c: RunConfigModel) -> RunConfigDtoModel {
    RunConfigDtoModel {
        env: c.env,
        parallel: Some(c.parallel),
        threads: Some(c.threads),
        alias: c.args.alias,
        model_path: c.args.model_path,
        mmproj_path: c.args.mmproj_path,
        prio: c.args.prio,
        n_gpu_layers: c.args.n_gpu_layers,
        jinja: c.args.jinja,
        ctx_size: c.args.ctx_size,
        no_mmap: c.args.no_mmap,
        flash_attn: c.args.flash_attn,
        fit: c.args.fit,
        batch_size: c.args.batch_size,
        ubatch_size: c.args.ubatch_size,
        cache_type_v: c.args.cache_type_v,
        cache_type_k: c.args.cache_type_k,
        no_context_shift: c.args.no_context_shift,
        no_cont_batching: c.args.no_cont_batching,
        min_p: c.args.min_p,
        temp: c.args.temp,
        repeat_penalty: c.args.repeat_penalty,
        presence_penalty: c.args.presence_penalty,
        seed: c.args.seed,
        top_k: c.args.top_k,
        top_p: c.args.top_p,
    }
}

impl LlamaCppRunConfigDto {
    /// The launch configuration this record stands for, under a key.
    pub fn map_into_domain(self, api_key: String) -> (c: LlamaCppConfig)
        ensures
            c@ == spec_into_domain(self@, api_key@),
    {
        LlamaCppConfig {
            env: self.env,
            parallel: match self.parallel {
                Some(p) => p,
                None => DEFAULT_PARALLEL,
            },
            threads: match self.threads {
                Some(t) => t,
                None => DEFAULT_THREADS,
            },
            args: LlamaCppConfigArgs {
                api_key: Some(api_key),
                alias: self.alias,
                model_path: self.model_path,
                mmproj_path: self.mmproj_path,
                prio: self.prio,
                n_gpu_layers: self.n_gpu_layers,
                jinja: self.jinja,
                ctx_size: self.ctx_size,
                no_mmap: self.no_mmap,
                flash_attn: self.flash_attn,
                fit: self.fit,
                batch_size: self.batch_size,
                ubatch_size: self.ubatch_size,
                cache_type_v: self.cache_type_v,
                cache_type_k: self.cache_type_k,
                no_context_shift: self.no_context_shift,
                no_cont_batching: self.no_cont_batching,
                min_p: self.min_p,
                temp: self.temp,
                repeat_penalty: self.repeat_penalty,
                presence_penalty: self.presence_penalty,
                seed: self.seed,
                top_k: self.top_k,
                top_p: self.top_p,
            },
        }
    }

    /// The record of a launch configuration.
    pub fn from_domain(value: LlamaCppConfig) -> (d: LlamaCppRunConfigDto)
        ensures
            d@ == spec_from_domain(value@),
    {
        LlamaCppRunConfigDto {
            env: value.env,
            parallel: Some(value.parallel),
            threads: Some(value.threads),
            alias: value.args.alias,
            model_path: value.args.model_path,
            mmproj_path: value.args.mmproj_path,
            prio: value.args.prio,
            n_gpu_layers: value.args.n_gpu_layers,
            jinja: value.args.jinja,
            ctx_size: value.args.ctx_size,
            no_mmap: value.args.no_mmap,
            flash_attn: value.args.flash_attn,
            fit: value.args.fit,
            batch_size: value.args.batch_size,
            ubatch_size: value.args.ubatch_size,
            cache_type_v: value.args.cache_type_v,
            cache_type_k: value.args.cache_type_k,
            no_context_shift: value.args.no_context_shift,
            no_cont_batching: value.args.no_cont_batching,
            min_p: value.args.min_p,
            temp: value.args.temp,
            repeat_penalty: value.args.repeat_penalty,
            presence_penalty: value.args.presence_penalty,
            seed: value.args.seed,
            top_k: value.args.top_k,
            top_p: value.args.top_p,
        }
    }
}

/// A launch configuration that carries a key is got back from its record
/// and the key.
pub proof fn lemma_domain_roundtrip(c: RunConfigModel)
    requires
        c.args.api_key is Some,
    ensures
        spec_into_domain(spec_from_domain(c), c.args.api_key->0) == c,
{
}

/// A record that names slots and threads is got back from the launch
/// configuration it stands for, whatever the key.
pub proof fn lemma_record_roundtrip(d: RunConfigDtoModel, api_key: Seq<char>)
    requires
        d.parallel is Some,
        d.threads is Some,
    ensures
        spec_from_domain(spec_into_domain(d, api_key)) == d,
{
}

/// The state of the backend as it is shown.
#[derive(Debug, Clone)]
pub enum LlamaCppProcessStateResponse {
    Stopped,
    Running(LlamaCppRunConfigDto),
    Starting(LlamaCppRunConfigDto),
    Stopping,
}

/// Mathematical model of [`LlamaCppProcessStateResponse`].
pub ghost enum StateResponseModel {
    Stopped,
    Running(RunConfigDtoModel),
    Starting(RunConfigDtoModel),
    Stopping,
}

impl View for LlamaCppProcessStateResponse {
    type V = StateResponseModel;

    open spec fn view(&self) -> StateResponseModel {
        match *self {
            LlamaCppProcessStateResponse::Stopped => StateResponseModel::Stopped,
            LlamaCppProcessStateResponse::Running(d) => StateResponseModel::Running(d@),
            LlamaCppProcessStateResponse::Starting(d) => StateResponseModel::Starting(d@),
            LlamaCppProcessStateResponse::Stopping => StateResponseModel::Stopping,
        }
    }
}

/// How a state is shown: a termination that is followed by a start is shown
/// as the start of what is pending, any other termination as stopping.
pub open spec fn spec_response(s: StateModel<RunConfigModel>) -> StateResponseModel {
    match s {
        StateModel::Running(c) => StateResponseModel::Running(spec_from_domain(c)),
        StateModel::Starting(c) => StateResponseModel::Starting(spec_from_domain(c)),
        StateModel::Stopped => StateResponseModel::Stopped,
        StateModel::Stopping(_, None) => StateResponseModel::Stopping,
        StateModel::Stopping(_, Some(next)) => StateResponseModel::Starting(spec_from_domain(next)),
    }
}

impl LlamaCppProcessStateResponse {
    /// How a state is shown.
    pub fn from_state(value: LlamaCppProcessState) -> (r: LlamaCppProcessStateResponse)
        ensures
            r@ == spec_response(value@),
    {
        match value {
            ProcessState::Running(run_config) => LlamaCppProcessStateResponse::Running(
                LlamaCppRunConfigDto::from_domain(run_config),
            ),
            ProcessState::Starting(run_config) => LlamaCppProcessStateResponse::Starting(
                LlamaCppRunConfigDto::from_domain(run_config),
            ),
            ProcessState::Stopped => LlamaCppProcessStateResponse::Stopped,
            ProcessState::Stopping(_, None) => LlamaCppProcessStateResponse::Stopping,
            ProcessState::Stopping(_, Some(run_config)) => LlamaCppProcessStateResponse::Starting(
                LlamaCppRunConfigDto::from_domain(run_config),
            ),
        }
    }
}

} // verus!
