//! Resolution of compiler settings for JavaScript and TypeScript sources.
//!
//! A [`SourceDescriptor`] says what kind of file is about to be compiled and
//! what the project asked for; [`resolve`] turns it into the complete
//! [`CompilerConfig`] that the compiler is run with, or refuses it.

pub mod config;
pub mod descriptor;
pub mod refresh;
pub mod resolver;
pub mod target;

pub use config::{
    CompilerConfig, CompilerConfigView, ConfigError, MinifySettings, ModuleFormat, ReactRuntime,
    ReactTransformSpec, ReactTransformView, RefreshOptions, RefreshOptionsView, SyntaxSpec,
};
pub use descriptor::SourceDescriptor;
pub use refresh::default_refresh_options;
pub use resolver::{
    get_config_options, lemma_resolve_is_pure, outcome, react_transform, react_transform_for,
    resolution, resolve, resolved, select_syntax, syntax_for,
};
pub use target::TargetVersion;
