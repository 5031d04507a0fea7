//! `==` on environments and launch configurations: equality by value.

use crate::comfyui::ComfyUiConfig;
use crate::env::EnvMap;
use crate::llamacpp::{LlamaCppConfig, LlamaCppConfigArgs};
use crate::process::ProcessConfig;
use vstd::prelude::*;
use vstd::std_specs::cmp::PartialEqSpecImpl;

verus! {

impl PartialEq for EnvMap {
    fn eq(&self, other: &Self) -> (r: bool) {
        self.same_as(other)
    }
}

impl PartialEqSpecImpl for EnvMap {
    open spec fn obeys_eq_spec() -> bool {
        true
    }

    open spec fn eq_spec(&self, other: &Self) -> bool {
        self@ == other@
    }
}

impl PartialEq for LlamaCppConfigArgs {
    fn eq(&self, other: &Self) -> (r: bool) {
        self.same_as(other)
    }
}

impl PartialEqSpecImpl for LlamaCppConfigArgs {
    open spec fn obeys_eq_spec() -> bool {
        true
    }

    open spec fn eq_spec(&self, other: &Self) -> bool {
        self@ == other@
    }
}

impl PartialEq for LlamaCppConfig {
    fn eq(&self, other: &Self) -> (r: bool) {
        self.same_config(other)
    }
}

impl PartialEqSpecImpl for LlamaCppConfig {
    open spec fn obeys_eq_spec() -> bool {
        true
    }

    open spec fn eq_spec(&self, other: &Self) -> bool {
        self@ == other@
    }
}

impl PartialEq for ComfyUiConfig {
    fn eq(&self, other: &Self) -> (r: bool) {
        self.same_config(other)
    }
}

impl PartialEqSpecImpl for ComfyUiConfig {
    open spec fn obeys_eq_spec() -> bool {
        true
    }

    open spec fn eq_spec(&self, other: &Self) -> bool {
        self@ == other@
    }
}

} // verus!
