//! A build step: one configured unit of merge-train work. A step references
//! its remote by name; the reference is validated against the registry at
//! load time and resolved again at pipeline time.

use vstd::prelude::*;
use crate::config::StepConfig;

verus! {

/// One unit of the merge pipeline, in execution order.
pub struct BuildStep {
    pub config: StepConfig,
}

impl BuildStep {
    /// A step owning a copy of its configuration.
    pub fn new(cfg: &StepConfig) -> (r: Self)
        ensures
            r.config == *cfg,
    {
        BuildStep { config: cfg.duplicate() }
    }
}

} // verus!
