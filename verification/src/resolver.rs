//! From a source descriptor to the configuration the compiler is run with.

use vstd::prelude::*;

use crate::config::{
    CompilerConfig, CompilerConfigView, ConfigError, MinifySettings, ModuleFormat, ReactRuntime,
    ReactTransformSpec, ReactTransformView, RefreshOptions, SyntaxSpec,
};
use crate::descriptor::SourceDescriptor;
use crate::refresh::default_refresh_options;

verus! {

/// The grammar for a source language: TypeScript with TSX, or ECMAScript
/// with JSX.
pub open spec fn syntax_for(is_typescript: bool) -> SyntaxSpec {
    if is_typescript {
        SyntaxSpec::TypeScript { tsx: true }
    } else {
        SyntaxSpec::EcmaScript { jsx: true }
    }
}

/// The React transform of a development build: automatic runtime, and fast
/// refresh with the transform's own defaults where it is asked for.
pub open spec fn react_transform_for(enable_react_refresh: bool) -> ReactTransformView {
    ReactTransformView {
        runtime: ReactRuntime::Automatic,
        refresh: if enable_react_refresh {
            Some(default_refresh_options())
        } else {
            None
        },
        development: true,
    }
}

/// The configuration a descriptor stands for.
///
/// Grammar and fast refresh follow the descriptor, target and loose mode
/// are taken over from it, and the rest is fixed: no compression, no
/// mangling, CommonJS modules.
pub open spec fn resolved(descriptor: SourceDescriptor) -> CompilerConfigView {
    CompilerConfigView {
        syntax: syntax_for(descriptor.is_typescript),
        target_version: descriptor.target_version,
        loose_mode: descriptor.loose_mode,
        minify: MinifySettings { compress: false, mangle: false },
        react: react_transform_for(descriptor.enable_react_refresh),
        module: ModuleFormat::CommonJs,
    }
}

/// What resolving a descriptor gives: its configuration where the target
/// is supported, and `UnsupportedTarget` where it is not.
pub open spec fn resolution(
    descriptor: SourceDescriptor,
) -> Result<CompilerConfigView, ConfigError> {
    if descriptor.target_version.supported() {
        Ok(resolved(descriptor))
    } else {
        Err(ConfigError::UnsupportedTarget)
    }
}

/// What a result of [`resolve`] holds.
pub open spec fn outcome(
    result: Result<CompilerConfig, ConfigError>,
) -> Result<CompilerConfigView, ConfigError> {
    match result {
        Ok(config) => Ok(config@),
        Err(error) => Err(error),
    }
}

/// Selects the grammar for a source language.
pub fn select_syntax(is_typescript: bool) -> (syntax: SyntaxSpec)
    ensures
        syntax == syntax_for(is_typescript),
{
    if is_typescript {
        SyntaxSpec::TypeScript { tsx: true }
    } else {
        SyntaxSpec::EcmaScript { jsx: true }
    }
}

/// Builds the React transform settings of a development build.
pub fn react_transform(enable_react_refresh: bool) -> (react: ReactTransformSpec)
    ensures
        react@ == react_transform_for(enable_react_refresh),
        react@.well_formed(),
{
    let refresh = if enable_react_refresh {
        Some(RefreshOptions::default())
    } else {
        None
    };
    ReactTransformSpec { runtime: ReactRuntime::Automatic, refresh, development: true }
}

/// Puts the configuration of a descriptor together.
fn assemble(descriptor: SourceDescriptor) -> (config: CompilerConfig)
    ensures
        config@ == resolved(descriptor),
{
    CompilerConfig {
        syntax: select_syntax(descriptor.is_typescript),
        target_version: descriptor.target_version,
        loose_mode: descriptor.loose_mode,
        minify: MinifySettings { compress: false, mangle: false },
        react: react_transform(descriptor.enable_react_refresh),
        module: ModuleFormat::CommonJs,
    }
}

/// Resolves a descriptor into the configuration the compiler is run with.
///
/// Fails with [`ConfigError::UnsupportedTarget`] exactly when the
/// descriptor's target is outside the supported set; nothing else can make
/// it fail, and a configuration that is returned is complete and well
/// formed.
pub fn resolve(descriptor: SourceDescriptor) -> (result: Result<CompilerConfig, ConfigError>)
    ensures
        outcome(result) == resolution(descriptor),
        result is Ok <==> descriptor.target_version.supported(),
        result matches Err(error) ==> error == ConfigError::UnsupportedTarget,
        result matches Ok(config) ==> config@.well_formed(),
        result matches Ok(config) ==> (descriptor.is_typescript ==> config.syntax == (
            SyntaxSpec::TypeScript { tsx: true }
        )),
        result matches Ok(config) ==> (!descriptor.is_typescript ==> config.syntax == (
            SyntaxSpec::EcmaScript { jsx: true }
        )),
        result matches Ok(config) ==> (config.react.refresh is Some
            <==> descriptor.enable_react_refresh),
        result matches Ok(config) ==> config.react.runtime == ReactRuntime::Automatic,
        result matches Ok(config) ==> config.react.development,
        result matches Ok(config) ==> !config.minify.compress && !config.minify.mangle,
        result matches Ok(config) ==> config.module == ModuleFormat::CommonJs,
        result matches Ok(config) ==> config.target_version == descriptor.target_version,
        result matches Ok(config) ==> config.loose_mode == descriptor.loose_mode,
{
    if descriptor.target_version.is_supported() {
        Ok(assemble(descriptor))
    } else {
        Err(ConfigError::UnsupportedTarget)
    }
}

/// The configuration for a file of the given language in a project that
/// sets nothing: what [`resolve`] gives for the descriptor with the
/// defaults, which never fails.
pub fn get_config_options(is_typescript: bool) -> (config: CompilerConfig)
    ensures
        config@ == resolved(SourceDescriptor::with_defaults(is_typescript)),
        outcome(Ok(config)) == resolution(SourceDescriptor::with_defaults(is_typescript)),
        config@.well_formed(),
{
    assemble(SourceDescriptor::new(is_typescript))
}

/// Resolving is a function of the descriptor alone: equal descriptors have
/// the same resolution, so the results of two calls of [`resolve`] on them
/// hold the same outcome, text for text.
pub proof fn lemma_resolve_is_pure(
    first: SourceDescriptor,
    second: SourceDescriptor,
    first_result: Result<CompilerConfig, ConfigError>,
    second_result: Result<CompilerConfig, ConfigError>,
)
    requires
        first == second,
        outcome(first_result) == resolution(first),
        outcome(second_result) == resolution(second),
    ensures
        resolution(first) == resolution(second),
        outcome(first_result) == outcome(second_result),
{
}

} // verus!
