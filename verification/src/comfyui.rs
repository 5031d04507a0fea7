//! The image backend: its launch configuration and the command line built
//! from it.

use crate::cli::{args_view, flag, flag_text, push_flag_text, push_switch, switch, CliArg, CliArgModel};
use crate::env::EnvMap;
use crate::llamacpp::LaunchPlan;
use crate::process::{readiness_step, spec_readiness, ProcessConfig};
use crate::text::{chars_of, contains, contains_chars, decimal, decimal_string};
use vstd::prelude::*;
use vstd::string::*;

verus! {

/// How much of a model is kept in video memory.
#[derive(Debug, Clone, Copy, PartialEq, Eq, Structural)]
pub enum VRamSetting {
    GpuOnly,
    HighVram,
    NormalVram,
    LowVram,
    NoVram,
    Cpu,
}

/// Which attention implementation is used.
#[derive(Debug, Clone, Copy, PartialEq, Eq, Structural)]
pub enum AttnSetting {
    SplitCrossAttention,
    QuadCrossAttention,
    PytorchCrossAttention,
    SageAttention,
    FlashAttention,
}

/// The arguments block of a launch configuration.
#[derive(Debug, Clone, Copy, PartialEq, Eq, Structural)]
pub struct ComfyUiConfigArgs {
    pub fp32_vae: bool,
    pub use_flash_attention: bool,
    pub vram_setting: Option<VRamSetting>,
    pub attn_setting: Option<AttnSetting>,
}

/// The flag of a memory setting.
pub open spec fn vram_flag(v: VRamSetting) -> Seq<char> {
    match v {
        VRamSetting::GpuOnly => "--gpu-only"@,
        VRamSetting::HighVram => "--highvram"@,
        VRamSetting::NormalVram => "--normalvram"@,
        VRamSetting::LowVram => "--lowvram"@,
        VRamSetting::NoVram => "--novram"@,
        VRamSetting::Cpu => "--cpu"@,
    }
}

/// The flag of an attention setting.
pub open spec fn attn_flag(a: AttnSetting) -> Seq<char> {
    match a {
        AttnSetting::SplitCrossAttention => "--use-split-cross-attention"@,
        AttnSetting::QuadCrossAttention => "--use-quad-cross-attention"@,
        AttnSetting::PytorchCrossAttention => "--use-pytorch-cross-attention"@,
        AttnSetting::SageAttention => "--use-sage-attention"@,
        AttnSetting::FlashAttention => "--use-flash-attention"@,
    }
}

/// The command line after the arguments were appended to `base`.
pub open spec fn spec_apply(base: Seq<CliArgModel>, a: ComfyUiConfigArgs) -> Seq<CliArgModel> {
    base + switch("--fp32-vae"@, a.fp32_vae) + switch(
        "--use-flash-attention"@,
        a.use_flash_attention,
    ) + match a.vram_setting {
        Some(v) => flag(vram_flag(v)),
        None => Seq::empty(),
    } + match a.attn_setting {
        Some(v) => flag(attn_flag(v)),
        None => Seq::empty(),
    }
}

/// The flag of a memory setting.
pub fn vram_flag_text(v: VRamSetting) -> (s: &'static str)
    ensures
        s@ == vram_flag(v),
{
    match v {
        VRamSetting::GpuOnly => "--gpu-only",
        VRamSetting::HighVram => "--highvram",
        VRamSetting::NormalVram => "--normalvram",
        VRamSetting::LowVram => "--lowvram",
        VRamSetting::NoVram => "--novram",
        VRamSetting::Cpu => "--cpu",
    }
}

/// The flag of an attention setting.
pub fn attn_flag_text(a: AttnSetting) -> (s: &'static str)
    ensures
        s@ == attn_flag(a),
{
    match a {
        AttnSetting::SplitCrossAttention => "--use-split-cross-attention",
        AttnSetting::QuadCrossAttention => "--use-quad-cross-attention",
        AttnSetting::PytorchCrossAttention => "--use-pytorch-cross-attention",
        AttnSetting::SageAttention => "--use-sage-attention",
        AttnSetting::FlashAttention => "--use-flash-attention",
    }
}

impl ComfyUiConfigArgs {
    /// Appends the arguments to a command line.
    pub fn apply(&self, out: &mut Vec<CliArg>)
        ensures
            args_view(final(out)@) == spec_apply(args_view(old(out)@), *self),
    {
        push_switch(out, "--fp32-vae", self.fp32_vae);
        push_switch(out, "--use-flash-attention", self.use_flash_attention);
        match self.vram_setting {
            Some(v) => push_switch(out, vram_flag_text(v), true),
            None => {
                assert(args_view(out@) + Seq::<CliArgModel>::empty() =~= args_view(out@));
            },
        }
        match self.attn_setting {
            Some(a) => push_switch(out, attn_flag_text(a), true),
            None => {
                assert(args_view(out@) + Seq::<CliArgModel>::empty() =~= args_view(out@));
            },
        }
    }
}

/// A launch configuration of the image backend.
#[derive(Debug, Clone)]
pub struct ComfyUiConfig {
    pub env: EnvMap,
    pub args: ComfyUiConfigArgs,
}

/// Mathematical model of [`ComfyUiConfig`].
pub ghost struct ComfyUiConfigModel {
    pub env: Map<Seq<char>, Seq<char>>,
    pub args: ComfyUiConfigArgs,
}

impl View for ComfyUiConfig {
    type V = ComfyUiConfigModel;

    open spec fn view(&self) -> ComfyUiConfigModel {
        ComfyUiConfigModel { env: self.env@, args: self.args }
    }
}

impl ProcessConfig for ComfyUiConfig {
    fn same_config(&self, other: &Self) -> (r: bool) {
        self.env.same_as(&other.env) && self.args == other.args
    }

    fn duplicate(&self) -> (r: Self) {
        ComfyUiConfig { env: self.env.duplicate(), args: self.args }
    }
}

impl ComfyUiConfig {
    /// Appends the arguments of this configuration to a command line.
    pub fn apply_args(&self, out: &mut Vec<CliArg>)
        ensures
            args_view(final(out)@) == spec_apply(args_view(old(out)@), self.args),
    {
        self.args.apply(out);
    }

    /// Adds the environment variables of this configuration to those of a
    /// command, in the order they were bound.
    pub fn apply_env(&self, out: &mut EnvMap)
        ensures
            final(out).spec_bindings() == old(out).spec_bindings() + self.env.spec_bindings(),
    {
        out.extend_from(&self.env);
    }
}

/// Where the image backend is and where it listens.
#[derive(Debug, Clone)]
pub struct ComfyUiBackend {
    pub listen: String,
    pub port: u16,
    pub comfyui_setup_sh: String,
    pub comfyui_main_py: String,
    pub comfyui_execdir: String,
}

/// The substring on the child's error stream that announces readiness.
pub open spec fn ready_sentinel() -> Seq<char> {
    "To see the GUI go to: http"@
}

/// The command line of the image backend: the main script, then where to
/// listen.
pub open spec fn spec_command_line(main_py: Seq<char>, listen: Seq<char>, port: u16) -> Seq<
    CliArgModel,
> {
    Seq::<CliArgModel>::empty() + flag(main_py) + flag_text("--listen"@, listen) + flag_text(
        "--port"@,
        decimal(port as nat),
    )
}

impl ComfyUiBackend {
    /// The command that prepares the backend, run to its end in the
    /// backend's directory before the backend is spawned.
    pub fn setup_command(&self) -> (s: String)
        ensures
            s@ == "./"@ + self.comfyui_setup_sh@,
    {
        let mut s = String::from_str("./");
        s.append(self.comfyui_setup_sh.as_str());
        s
    }

    /// The plan for spawning the backend with `config`.
    pub fn launch_plan(&self, config: &ComfyUiConfig) -> (plan: LaunchPlan)
        ensures
            plan.program@ == ".venv/bin/python3"@,
            plan.working_dir@ == self.comfyui_execdir@,
            args_view(plan.args@) == spec_command_line(
                self.comfyui_main_py@,
                self.listen@,
                self.port,
            ),
            plan.env.spec_bindings() == config.env.spec_bindings(),
            plan.env@ == config.env@,
    {
        let mut env = EnvMap::new();
        config.apply_env(&mut env);
        assert(env.spec_bindings() =~= config.env.spec_bindings());
        let mut args: Vec<CliArg> = Vec::new();
        assert(args_view(args@) =~= Seq::<CliArgModel>::empty());
        args.push(CliArg::Text(self.comfyui_main_py.clone()));
        assert(args_view(args@) =~= Seq::<CliArgModel>::empty() + flag(self.comfyui_main_py@));
        push_flag_text(&mut args, "--listen", self.listen.clone());
        push_flag_text(&mut args, "--port", decimal_string(self.port as u64));
        LaunchPlan {
            program: String::from_str(".venv/bin/python3"),
            working_dir: self.comfyui_execdir.clone(),
            args,
            env,
        }
    }

    /// Whether a line of the child's error stream announces readiness.
    pub fn is_ready_line(line: &str) -> (r: bool)
        ensures
            r == contains(line@, ready_sentinel()),
    {
        contains_chars(&chars_of(line), &chars_of("To see the GUI go to: http"))
    }

    /// Reads one line of the child's error stream: says whether readiness
    /// has been announced after it, and whether it is to be announced now,
    /// which is so at the first line that holds the sentinel and never
    /// again.
    pub fn on_stderr_line(announced: bool, line: &str) -> (r: (bool, bool))
        ensures
            r.0 == (announced || contains(line@, ready_sentinel())),
            r.1 == (!announced && contains(line@, ready_sentinel())),
            r == spec_readiness(announced, contains(line@, ready_sentinel())),
    {
        readiness_step(announced, Self::is_ready_line(line))
    }
}

} // verus!
