//! Which formula template a build renders with.
use vstd::prelude::*;
use vstd::string::*;
use crate::build_config::{Build, axis_len};

verus! {

/// The formula templates.
#[derive(Clone, Copy, Debug, PartialEq, Eq, Structural)]
pub enum Template {
    MultiTarget,
    SingleTarget,
}

impl Template {
    /// The template of a build: the multi-target one when any architecture
    /// or operating system is configured.
    pub fn from_build(build: &Build) -> (r: Template)
        ensures
            r == (if axis_len(build.arch) > 0 || axis_len(build.os) > 0 {
                Template::MultiTarget
            } else {
                Template::SingleTarget
            }),
    {
        if build.is_multi_target() {
            Template::MultiTarget
        } else {
            Template::SingleTarget
        }
    }

    /// The name the template is registered under.
    pub fn to_string(&self) -> (r: String)
        ensures
            r@ == match *self {
                Template::MultiTarget => "multi_target"@,
                Template::SingleTarget => "single_target"@,
            },
    {
        match self {
            Template::MultiTarget => String::from_str("multi_target"),
            Template::SingleTarget => String::from_str("single_target"),
        }
    }
}

} // verus!
