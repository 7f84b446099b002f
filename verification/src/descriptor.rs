//! What a caller says about the source file that is about to be compiled.

use vstd::prelude::*;

use crate::target::TargetVersion;

verus! {

/// One source file and the project settings that apply to it.
#[derive(Clone, Copy, Debug, PartialEq, Eq, Structural)]
pub struct SourceDescriptor {
    /// The file is TypeScript rather than ECMAScript.
    pub is_typescript: bool,
    /// Components are instrumented for fast refresh.
    pub enable_react_refresh: bool,
    /// Transforms may trade strict conformance for smaller output.
    pub loose_mode: bool,
    /// The edition that output is lowered to.
    pub target_version: TargetVersion,
}

impl SourceDescriptor {
    /// The descriptor of a file in a project that sets nothing: fast
    /// refresh on, strict transforms, ES5 output.
    pub open spec fn with_defaults(is_typescript: bool) -> SourceDescriptor {
        SourceDescriptor {
            is_typescript,
            enable_react_refresh: true,
            loose_mode: false,
            target_version: TargetVersion::Es5,
        }
    }

    /// Describes a file of the given language in a project that sets
    /// nothing.
    pub fn new(is_typescript: bool) -> (descriptor: SourceDescriptor)
        ensures
            descriptor == SourceDescriptor::with_defaults(is_typescript),
    {
        SourceDescriptor {
            is_typescript,
            enable_react_refresh: true,
            loose_mode: false,
            target_version: TargetVersion::default(),
        }
    }
}

} // verus!
