//! The settings a resolved configuration is made of.

use vstd::prelude::*;

use crate::target::TargetVersion;

verus! {

/// The grammar a source file is parsed with.
#[derive(Clone, Copy, Debug, PartialEq, Eq, Structural)]
pub enum SyntaxSpec {
    /// TypeScript; `tsx` admits JSX elements in it.
    TypeScript { tsx: bool },
    /// ECMAScript; `jsx` admits JSX elements in it.
    EcmaScript { jsx: bool },
}

/// How JSX elements are turned into calls.
#[derive(Clone, Copy, Debug, PartialEq, Eq, Structural)]
pub enum ReactRuntime {
    /// The element factory is imported by the compiler.
    Automatic,
    /// The element factory must be in scope in the source.
    Classic,
    /// JSX is left in the output.
    Preserve,
}

/// The wrapping convention of emitted modules.
#[derive(Clone, Copy, Debug, PartialEq, Eq, Structural)]
pub enum ModuleFormat {
    CommonJs,
    Umd,
    Amd,
    SystemJs,
    Es6,
    NodeNext,
}

/// Which minification passes run.
#[derive(Clone, Copy, Debug, PartialEq, Eq, Structural)]
pub struct MinifySettings {
    pub compress: bool,
    pub mangle: bool,
}

/// Why a descriptor was refused.
#[derive(Clone, Copy, Debug, PartialEq, Eq, Structural)]
pub enum ConfigError {
    /// The descriptor names a target edition outside the supported set.
    UnsupportedTarget,
}

/// Settings of the fast-refresh transform.
#[derive(Clone, Debug, PartialEq, Eq)]
pub struct RefreshOptions {
    /// Name of the function that registers a component.
    pub refresh_reg: String,
    /// Name of the function that creates a signature.
    pub refresh_sig: String,
    /// Whether signatures are emitted in full instead of hashed.
    pub emit_full_signatures: bool,
}

/// What a [`RefreshOptions`] holds.
pub struct RefreshOptionsView {
    pub refresh_reg: Seq<char>,
    pub refresh_sig: Seq<char>,
    pub emit_full_signatures: bool,
}

impl View for RefreshOptions {
    type V = RefreshOptionsView;

    open spec fn view(&self) -> RefreshOptionsView {
        RefreshOptionsView {
            refresh_reg: self.refresh_reg@,
            refresh_sig: self.refresh_sig@,
            emit_full_signatures: self.emit_full_signatures,
        }
    }
}

/// Settings of the React transform.
#[derive(Clone, Debug, PartialEq, Eq)]
pub struct ReactTransformSpec {
    pub runtime: ReactRuntime,
    /// Present when fast refresh is on.
    pub refresh: Option<RefreshOptions>,
    pub development: bool,
}

/// What a [`ReactTransformSpec`] holds.
pub struct ReactTransformView {
    pub runtime: ReactRuntime,
    pub refresh: Option<RefreshOptionsView>,
    pub development: bool,
}

impl ReactTransformView {
    /// Fast refresh is built on the automatic runtime: it is present only
    /// together with it.
    pub open spec fn well_formed(self) -> bool {
        self.refresh is Some ==> self.runtime == ReactRuntime::Automatic
    }
}

impl View for ReactTransformSpec {
    type V = ReactTransformView;

    open spec fn view(&self) -> ReactTransformView {
        ReactTransformView {
            runtime: self.runtime,
            refresh: match self.refresh {
                Some(options) => Some(options@),
                None => None,
            },
            development: self.development,
        }
    }
}

impl ReactTransformSpec {
    /// Whether fast refresh, if present, has the runtime it is built on.
    pub fn is_well_formed(&self) -> (yes: bool)
        ensures
            yes == self@.well_formed(),
    {
        match self.refresh {
            Some(_) => match self.runtime {
                ReactRuntime::Automatic => true,
                _ => false,
            },
            None => true,
        }
    }
}

/// Everything the compiler is told about one source file.
#[derive(Clone, Debug, PartialEq, Eq)]
pub struct CompilerConfig {
    pub syntax: SyntaxSpec,
    pub target_version: TargetVersion,
    pub loose_mode: bool,
    pub minify: MinifySettings,
    pub react: ReactTransformSpec,
    pub module: ModuleFormat,
}

/// What a [`CompilerConfig`] holds.
pub struct CompilerConfigView {
    pub syntax: SyntaxSpec,
    pub target_version: TargetVersion,
    pub loose_mode: bool,
    pub minify: MinifySettings,
    pub react: ReactTransformView,
    pub module: ModuleFormat,
}

impl CompilerConfigView {
    /// The settings agree with each other: the target is one the compiler
    /// can lower to, and the React transform is well formed.
    pub open spec fn well_formed(self) -> bool {
        &&& self.target_version.supported()
        &&& self.react.well_formed()
    }
}

impl View for CompilerConfig {
    type V = CompilerConfigView;

    open spec fn view(&self) -> CompilerConfigView {
        CompilerConfigView {
            syntax: self.syntax,
            target_version: self.target_version,
            loose_mode: self.loose_mode,
            minify: self.minify,
            react: self.react@,
            module: self.module,
        }
    }
}

impl CompilerConfig {
    /// Whether the settings agree with each other.
    pub fn is_well_formed(&self) -> (yes: bool)
        ensures
            yes == self@.well_formed(),
    {
        self.target_version.is_supported() && self.react.is_well_formed()
    }
}

} // verus!
