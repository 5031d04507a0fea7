//! The inference backend: its launch configuration, the command line built
//! from it, and how its readiness is recognised.

use crate::cli::{
    args_view, flag_text, opt_flag_fraction, opt_flag_number, opt_flag_on_off, opt_flag_text,
    opt_flag_tier, opt_int_u16, opt_int_u64, opt_int_u8, push_flag_text, push_opt_fraction,
    push_opt_on_off, push_opt_text, push_opt_tier, push_opt_unsigned, push_signed, push_switch,
    same_opt_fraction, same_opt_tier, same_opt_u16, same_opt_u64, same_opt_u8, switch, widen_u16,
    widen_u8, CliArg, CliArgModel, SamplingValue,
};
use crate::context_size::ContextSize;
use crate::env::EnvMap;
use crate::on_off::{duplicate_opt_on_off, opt_on_off_view, same_opt_on_off, OnOffModel, OnOffValue};
use crate::process::{readiness_step, spec_readiness, ProcessConfig, ProcessState};
use crate::text::{
    chars_of, contains, contains_chars, decimal, decimal_string, duplicate_opt_text, opt_text_view,
    same_opt_text, signed_decimal,
};
use vstd::prelude::*;
use vstd::string::*;

verus! {

/// The arguments block of a launch configuration: everything about the model and its tunables.
#[derive(Debug, Clone)]
pub struct LlamaCppConfigArgs {
    pub alias: String,
    pub api_key: Option<String>,
    pub model_path: String,
    pub mmproj_path: Option<String>,
    pub prio: Option<u8>,
    pub n_gpu_layers: Option<u8>,
    pub jinja: bool,
    pub ctx_size: Option<ContextSize>,
    pub no_mmap: bool,
    pub flash_attn: Option<OnOffValue>,
    pub fit: Option<OnOffValue>,
    pub batch_size: Option<u16>,
    pub ubatch_size: Option<u16>,
    pub cache_type_v: Option<String>,
    pub cache_type_k: Option<String>,
    pub no_context_shift: bool,
    pub no_cont_batching: bool,
    pub min_p: Option<SamplingValue>,
    pub temp: Option<SamplingValue>,
    pub repeat_penalty: Option<SamplingValue>,
    pub presence_penalty: Option<SamplingValue>,
    pub seed: Option<u64>,
    pub top_k: Option<u16>,
    pub top_p: Option<SamplingValue>,
}

/// Mathematical model of [`LlamaCppConfigArgs`].
pub ghost struct ConfigArgsModel {
    pub alias: Seq<char>,
    pub api_key: Option<Seq<char>>,
    pub model_path: Seq<char>,
    pub mmproj_path: Option<Seq<char>>,
    pub prio: Option<u8>,
    pub n_gpu_layers: Option<u8>,
    pub jinja: bool,
    pub ctx_size: Option<ContextSize>,
    pub no_mmap: bool,
    pub flash_attn: Option<OnOffModel>,
    pub fit: Option<OnOffModel>,
    pub batch_size: Option<u16>,
    pub ubatch_size: Option<u16>,
    pub cache_type_v: Option<Seq<char>>,
    pub cache_type_k: Option<Seq<char>>,
    pub no_context_shift: bool,
    pub no_cont_batching: bool,
    pub min_p: Option<SamplingValue>,
    pub temp: Option<SamplingValue>,
    pub repeat_penalty: Option<SamplingValue>,
    pub presence_penalty: Option<SamplingValue>,
    pub seed: Option<u64>,
    pub top_k: Option<u16>,
    pub top_p: Option<SamplingValue>,
}

impl View for LlamaCppConfigArgs {
    type V = ConfigArgsModel;

    open spec fn view(&self) -> ConfigArgsModel {
        ConfigArgsModel {
            alias: self.alias@,
            api_key: opt_text_view(self.api_key),
            model_path: self.model_path@,
            mmproj_path: opt_text_view(self.mmproj_path),
            prio: self.prio,
            n_gpu_layers: self.n_gpu_layers,
            jinja: self.jinja,
            ctx_size: self.ctx_size,
            no_mmap: self.no_mmap,
            flash_attn: opt_on_off_view(self.flash_attn),
            fit: opt_on_off_view(self.fit),
            batch_size: self.batch_size,
            ubatch_size: self.ubatch_size,
            cache_type_v: opt_text_view(self.cache_type_v),
            cache_type_k: opt_text_view(self.cache_type_k),
            no_context_shift: self.no_context_shift,
            no_cont_batching: self.no_cont_batching,
            min_p: self.min_p,
            temp: self.temp,
            repeat_penalty: self.repeat_penalty,
            presence_penalty: self.presence_penalty,
            seed: self.seed,
            top_k: self.top_k,
            top_p: self.top_p,
        }
    }
}

/// The command line after the arguments for `a`, `threads` and `parallel`
/// were appended to `base`: one flag per member that is present, a bare flag
/// for each switch that is set.
pub open spec fn spec_apply(
    base: Seq<CliArgModel>,
    a: ConfigArgsModel,
    threads: int,
    parallel: int,
) -> Seq<CliArgModel> {
    base
        + flag_text("--alias"@, a.alias)
        + flag_text("--model"@, a.model_path)
        + opt_flag_text("--api-key"@, a.api_key)
        + opt_flag_text("--mmproj"@, a.mmproj_path)
        + opt_flag_number("--prio"@, opt_int_u8(a.prio))
        + flag_text("--threads"@, signed_decimal(threads))
        + opt_flag_number("--n-gpu-layers"@, opt_int_u8(a.n_gpu_layers))
        + switch("--jinja"@, a.jinja)
        + switch("--no-mmap"@, a.no_mmap)
        + opt_flag_tier("--ctx-size"@, a.ctx_size)
        + opt_flag_on_off("--flash-attn"@, a.flash_attn)
        + opt_flag_on_off("--fit"@, a.fit)
        + opt_flag_number("--batch-size"@, opt_int_u16(a.batch_size))
        + opt_flag_number("--ubatch-size"@, opt_int_u16(a.ubatch_size))
        + opt_flag_text("--cache-type-v"@, a.cache_type_v)
        + opt_flag_text("--cache-type-k"@, a.cache_type_k)
        + flag_text("--parallel"@, signed_decimal(parallel))
        + switch("--no-context-shift"@, a.no_context_shift)
        + switch("--no-cont-batching"@, a.no_cont_batching)
        + opt_flag_fraction("--min-p"@, a.min_p)
        + opt_flag_fraction("--temp"@, a.temp)
        + opt_flag_fraction("--repeat-penalty"@, a.repeat_penalty)
        + opt_flag_fraction("--presence-penalty"@, a.presence_penalty)
        + opt_flag_number("--seed"@, opt_int_u64(a.seed))
        + opt_flag_number("--top-k"@, opt_int_u16(a.top_k))
        + opt_flag_fraction("--top-p"@, a.top_p)
}

impl LlamaCppConfigArgs {
    /// Equality by value: every member equal.
    pub fn same_as(&self, other: &Self) -> (r: bool)
        ensures
            r == (self@ == other@),
    {
        self.alias == other.alias
            && same_opt_text(&self.api_key, &other.api_key)
            && self.model_path == other.model_path
            && same_opt_text(&self.mmproj_path, &other.mmproj_path)
            && same_opt_u8(self.prio, other.prio)
            && same_opt_u8(self.n_gpu_layers, other.n_gpu_layers)
            && self.jinja == other.jinja
            && same_opt_tier(self.ctx_size, other.ctx_size)
            && self.no_mmap == other.no_mmap
            && same_opt_on_off(&self.flash_attn, &other.flash_attn)
            && same_opt_on_off(&self.fit, &other.fit)
            && same_opt_u16(self.batch_size, other.batch_size)
            && same_opt_u16(self.ubatch_size, other.ubatch_size)
            && same_opt_text(&self.cache_type_v, &other.cache_type_v)
            && same_opt_text(&self.cache_type_k, &other.cache_type_k)
            && self.no_context_shift == other.no_context_shift
            && self.no_cont_batching == other.no_cont_batching
            && same_opt_fraction(self.min_p, other.min_p)
            && same_opt_fraction(self.temp, other.temp)
            && same_opt_fraction(self.repeat_penalty, other.repeat_penalty)
            && same_opt_fraction(self.presence_penalty, other.presence_penalty)
            && same_opt_u64(self.seed, other.seed)
            && same_opt_u16(self.top_k, other.top_k)
            && same_opt_fraction(self.top_p, other.top_p)
    }

    /// A copy equal by value.
    pub fn duplicate(&self) -> (r: Self)
        ensures
            r@ == self@,
    {
        LlamaCppConfigArgs {
            alias: self.alias.clone(),
            api_key: duplicate_opt_text(&self.api_key),
            model_path: self.model_path.clone(),
            mmproj_path: duplicate_opt_text(&self.mmproj_path),
            prio: self.prio,
            n_gpu_layers: self.n_gpu_layers,
            jinja: self.jinja,
            ctx_size: self.ctx_size,
            no_mmap: self.no_mmap,
            flash_attn: duplicate_opt_on_off(&self.flash_attn),
            fit: duplicate_opt_on_off(&self.fit),
            batch_size: self.batch_size,
            ubatch_size: self.ubatch_size,
            cache_type_v: duplicate_opt_text(&self.cache_type_v),
            cache_type_k: duplicate_opt_text(&self.cache_type_k),
            no_context_shift: self.no_context_shift,
            no_cont_batching: self.no_cont_batching,
            min_p: self.min_p,
            temp: self.temp,
            repeat_penalty: self.repeat_penalty,
            presence_penalty: self.presence_penalty,
            seed: self.seed,
            top_k: self.top_k,
            top_p: self.top_p,
        }
    }

    /// Appends the arguments to a command line.
    pub fn apply(&self, out: &mut Vec<CliArg>, threads: i8, parallel: u8)
        ensures
            args_view(final(out)@) == spec_apply(
                args_view(old(out)@),
                self@,
                threads as int,
                parallel as int,
            ),
    {
        push_flag_text(out, "--alias", self.alias.clone());
        push_flag_text(out, "--model", self.model_path.clone());
        push_opt_text(out, "--api-key", &self.api_key);
        push_opt_text(out, "--mmproj", &self.mmproj_path);
        push_opt_unsigned(out, "--prio", widen_u8(self.prio));
        push_signed(out, "--threads", threads as i64);
        push_opt_unsigned(out, "--n-gpu-layers", widen_u8(self.n_gpu_layers));
        push_switch(out, "--jinja", self.jinja);
        push_switch(out, "--no-mmap", self.no_mmap);
        push_opt_tier(out, "--ctx-size", self.ctx_size);
        push_opt_on_off(out, "--flash-attn", &self.flash_attn);
        push_opt_on_off(out, "--fit", &self.fit);
        push_opt_unsigned(out, "--batch-size", widen_u16(self.batch_size));
        push_opt_unsigned(out, "--ubatch-size", widen_u16(self.ubatch_size));
        push_opt_text(out, "--cache-type-v", &self.cache_type_v);
        push_opt_text(out, "--cache-type-k", &self.cache_type_k);
        push_signed(out, "--parallel", parallel as i64);
        push_switch(out, "--no-context-shift", self.no_context_shift);
        push_switch(out, "--no-cont-batching", self.no_cont_batching);
        push_opt_fraction(out, "--min-p", self.min_p);
        push_opt_fraction(out, "--temp", self.temp);
        push_opt_fraction(out, "--repeat-penalty", self.repeat_penalty);
        push_opt_fraction(out, "--presence-penalty", self.presence_penalty);
        push_opt_unsigned(out, "--seed", self.seed);
        push_opt_unsigned(out, "--top-k", widen_u16(self.top_k));
        push_opt_fraction(out, "--top-p", self.top_p);
    }
}

/// A launch configuration of the inference backend.
#[derive(Debug, Clone)]
pub struct LlamaCppConfig {
    /// Environment variables for the child.
    pub env: EnvMap,
    /// Model and tunables.
    pub args: LlamaCppConfigArgs,
    /// How many concurrent slots the backend is to offer.
    pub parallel: u8,
    /// How many threads the backend is to use; -1 leaves it to the backend.
    pub threads: i8,
}

/// Mathematical model of [`LlamaCppConfig`].
pub ghost struct RunConfigModel {
    pub env: Map<Seq<char>, Seq<char>>,
    pub args: ConfigArgsModel,
    pub parallel: u8,
    pub threads: i8,
}

impl View for LlamaCppConfig {
    type V = RunConfigModel;

    open spec fn view(&self) -> RunConfigModel {
        RunConfigModel {
            env: self.env@,
            args: self.args@,
            parallel: self.parallel,
            threads: self.threads,
        }
    }
}

impl ProcessConfig for LlamaCppConfig {
    fn same_config(&self, other: &Self) -> (r: bool) {
        self.env.same_as(&other.env) && self.args.same_as(&other.args) && self.parallel
            == other.parallel && self.threads == other.threads
    }

    fn duplicate(&self) -> (r: Self) {
        LlamaCppConfig {
            env: self.env.duplicate(),
            args: self.args.duplicate(),
            parallel: self.parallel,
            threads: self.threads,
        }
    }
}

/// The state of the inference backend.
pub type LlamaCppProcessState = ProcessState<LlamaCppConfig>;

impl LlamaCppConfig {
    /// Appends the arguments of this configuration to a command line.
    pub fn apply_args(&self, out: &mut Vec<CliArg>)
        ensures
            args_view(final(out)@) == spec_apply(
                args_view(old(out)@),
                self@.args,
                self.threads as int,
                self.parallel as int,
            ),
    {
        self.args.apply(out, self.threads, self.parallel);
    }

    /// Adds the environment variables of this configuration to those of a
    /// command, in the order they were bound.
    pub fn apply_env(&self, out: &mut EnvMap)
        ensures
            final(out).spec_bindings() == old(out).spec_bindings() + self.env.spec_bindings(),
    {
        out.extend_from(&self.env);
    }
}

/// Where the backend binary is and where it listens.
#[derive(Debug, Clone)]
pub struct LlamaCppBackend {
    pub host: String,
    pub port: u16,
    pub llama_cpp_command: String,
    pub llama_cpp_execdir: String,
}

/// Everything needed to spawn a child: program, working directory,
/// arguments and environment.
#[derive(Debug, Clone)]
pub struct LaunchPlan {
    pub program: String,
    pub working_dir: String,
    pub args: Vec<CliArg>,
    pub env: EnvMap,
}

/// The substring on the child's error stream that announces readiness.
pub open spec fn ready_sentinel() -> Seq<char> {
    "server is listening on http"@
}

/// The command line of the backend for a configuration: host and port first,
/// then the arguments of the configuration.
pub open spec fn spec_command_line(host: Seq<char>, port: u16, config: RunConfigModel) -> Seq<
    CliArgModel,
> {
    spec_apply(
        Seq::<CliArgModel>::empty() + flag_text("--host"@, host) + flag_text(
            "--port"@,
            decimal(port as nat),
        ),
        config.args,
        config.threads as int,
        config.parallel as int,
    )
}

impl LlamaCppBackend {
    /// The plan for spawning the backend with `config`.
    pub fn launch_plan(&self, config: &LlamaCppConfig) -> (plan: LaunchPlan)
        ensures
            plan.program@ == self.llama_cpp_command@,
            plan.working_dir@ == self.llama_cpp_execdir@,
            args_view(plan.args@) == spec_command_line(self.host@, self.port, config@),
            plan.env.spec_bindings() == config.env.spec_bindings(),
            plan.env@ == config.env@,
    {
        let mut env = EnvMap::new();
        config.apply_env(&mut env);
        assert(env.spec_bindings() =~= config.env.spec_bindings());
        let mut args: Vec<CliArg> = Vec::new();
        assert(args_view(args@) =~= Seq::<CliArgModel>::empty());
        push_flag_text(&mut args, "--host", self.host.clone());
        push_flag_text(&mut args, "--port", decimal_string(self.port as u64));
        config.apply_args(&mut args);
        LaunchPlan {
            program: self.llama_cpp_command.clone(),
            working_dir: self.llama_cpp_execdir.clone(),
            args,
            env,
        }
    }

    /// Whether a line of the child's error stream announces readiness.
    pub fn is_ready_line(line: &str) -> (r: bool)
        ensures
            r == contains(line@, ready_sentinel()),
    {
        let hay = chars_of(line);
        let needle = chars_of("server is listening on http");
        contains_chars(&hay, &needle)
    }

    /// Reads one line of the child's error stream: says whether readiness
    /// has been announced after it, and whether it is to be announced now,
    /// which is so at the first line that holds the sentinel and never
    /// again.
    pub fn on_stderr_line(announced: bool, line: &str) -> (r: (bool, bool))
        ensures
            r.0 == (announced || contains(line@, ready_sentinel())),
            r.1 == (!announced && contains(line@, ready_sentinel())),
            r == spec_readiness(announced, contains(line@, ready_sentinel())),
    {
        readiness_step(announced, Self::is_ready_line(line))
    }
}

} // verus!
