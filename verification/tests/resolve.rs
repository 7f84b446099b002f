use metro_swc_transformer::{
    resolve, CompilerConfig, ConfigError, MinifySettings, ModuleFormat, ReactRuntime,
    ReactTransformSpec, RefreshOptions, SourceDescriptor, SyntaxSpec, TargetVersion,
};

fn supported_targets() -> Vec<TargetVersion> {
    vec![
        TargetVersion::Es3,
        TargetVersion::Es5,
        TargetVersion::Es2015,
        TargetVersion::Es2016,
        TargetVersion::Es2017,
        TargetVersion::Es2018,
        TargetVersion::Es2019,
        TargetVersion::Es2020,
        TargetVersion::Es2021,
        TargetVersion::Es2022,
        TargetVersion::Es2023,
        TargetVersion::Es2024,
        TargetVersion::EsNext,
    ]
}

fn all_descriptors() -> Vec<SourceDescriptor> {
    let mut targets = supported_targets();
    targets.push(TargetVersion::Unrecognized);
    let mut all = Vec::new();
    for target_version in targets {
        for is_typescript in [false, true] {
            for enable_react_refresh in [false, true] {
                for loose_mode in [false, true] {
                    all.push(SourceDescriptor {
                        is_typescript,
                        enable_react_refresh,
                        loose_mode,
                        target_version,
                    });
                }
            }
        }
    }
    all
}

fn shipped_refresh_options() -> RefreshOptions {
    RefreshOptions {
        refresh_reg: String::from("$RefreshReg$"),
        refresh_sig: String::from("$RefreshSig$"),
        emit_full_signatures: false,
    }
}

#[test]
fn typescript_with_refresh_resolves_to_the_full_development_config() {
    let descriptor = SourceDescriptor {
        is_typescript: true,
        enable_react_refresh: true,
        loose_mode: false,
        target_version: TargetVersion::Es5,
    };
    let config = resolve(descriptor).expect("ES5 is a supported target");
    assert_eq!(
        config,
        CompilerConfig {
            syntax: SyntaxSpec::TypeScript { tsx: true },
            target_version: TargetVersion::Es5,
            loose_mode: false,
            minify: MinifySettings { compress: false, mangle: false },
            react: ReactTransformSpec {
                runtime: ReactRuntime::Automatic,
                refresh: Some(shipped_refresh_options()),
                development: true,
            },
            module: ModuleFormat::CommonJs,
        }
    );
}

#[test]
fn ecmascript_without_refresh_has_jsx_and_no_refresh() {
    for target_version in supported_targets() {
        for loose_mode in [false, true] {
            let descriptor = SourceDescriptor {
                is_typescript: false,
                enable_react_refresh: false,
                loose_mode,
                target_version,
            };
            let config = resolve(descriptor).expect("a named edition is supported");
            assert_eq!(config.syntax, SyntaxSpec::EcmaScript { jsx: true });
            assert_eq!(config.react.refresh, None);
        }
    }
}

#[test]
fn unrecognized_target_is_refused() {
    let descriptor = SourceDescriptor {
        is_typescript: true,
        enable_react_refresh: true,
        loose_mode: false,
        target_version: TargetVersion::Unrecognized,
    };
    assert_eq!(resolve(descriptor), Err(ConfigError::UnsupportedTarget));
}

#[test]
fn unrecognized_target_is_refused_whatever_the_flags() {
    for descriptor in all_descriptors() {
        if descriptor.target_version == TargetVersion::Unrecognized {
            assert_eq!(resolve(descriptor), Err(ConfigError::UnsupportedTarget));
        }
    }
}

#[test]
fn every_named_edition_resolves() {
    for descriptor in all_descriptors() {
        let named = descriptor.target_version != TargetVersion::Unrecognized;
        assert_eq!(resolve(descriptor).is_ok(), named);
        assert_eq!(descriptor.target_version.is_supported(), named);
    }
}

#[test]
fn resolving_twice_gives_equal_results() {
    for descriptor in all_descriptors() {
        let copy = SourceDescriptor {
            is_typescript: descriptor.is_typescript,
            enable_react_refresh: descriptor.enable_react_refresh,
            loose_mode: descriptor.loose_mode,
            target_version: descriptor.target_version,
        };
        assert_eq!(descriptor, copy);
        assert_eq!(resolve(descriptor), resolve(copy));
    }
}

#[test]
fn syntax_follows_the_language_alone() {
    for descriptor in all_descriptors() {
        if let Ok(config) = resolve(descriptor) {
            if descriptor.is_typescript {
                assert_eq!(config.syntax, SyntaxSpec::TypeScript { tsx: true });
            } else {
                assert_eq!(config.syntax, SyntaxSpec::EcmaScript { jsx: true });
            }
        }
    }
}

#[test]
fn refresh_is_present_exactly_when_enabled() {
    for descriptor in all_descriptors() {
        if let Ok(config) = resolve(descriptor) {
            assert_eq!(config.react.runtime, ReactRuntime::Automatic);
            assert!(config.react.development);
            if descriptor.enable_react_refresh {
                assert_eq!(config.react.refresh, Some(shipped_refresh_options()));
            } else {
                assert_eq!(config.react.refresh, None);
            }
            assert!(config.react.is_well_formed());
        }
    }
}

#[test]
fn minification_is_always_off() {
    for descriptor in all_descriptors() {
        if let Ok(config) = resolve(descriptor) {
            assert_eq!(config.minify, MinifySettings { compress: false, mangle: false });
        }
    }
}

#[test]
fn modules_are_always_commonjs() {
    for descriptor in all_descriptors() {
        if let Ok(config) = resolve(descriptor) {
            assert_eq!(config.module, ModuleFormat::CommonJs);
        }
    }
}

#[test]
fn target_and_loose_mode_are_taken_over() {
    for descriptor in all_descriptors() {
        if let Ok(config) = resolve(descriptor) {
            assert_eq!(config.target_version, descriptor.target_version);
            assert_eq!(config.loose_mode, descriptor.loose_mode);
            assert!(config.is_well_formed());
        }
    }
}

#[test]
fn loose_es2015_ecmascript_with_refresh() {
    let descriptor = SourceDescriptor {
        is_typescript: false,
        enable_react_refresh: true,
        loose_mode: true,
        target_version: TargetVersion::Es2015,
    };
    assert_eq!(
        resolve(descriptor),
        Ok(CompilerConfig {
            syntax: SyntaxSpec::EcmaScript { jsx: true },
            target_version: TargetVersion::Es2015,
            loose_mode: true,
            minify: MinifySettings { compress: false, mangle: false },
            react: ReactTransformSpec {
                runtime: ReactRuntime::Automatic,
                refresh: Some(shipped_refresh_options()),
                development: true,
            },
            module: ModuleFormat::CommonJs,
        })
    );
}

#[test]
fn esnext_typescript_without_refresh() {
    let descriptor = SourceDescriptor {
        is_typescript: true,
        enable_react_refresh: false,
        loose_mode: false,
        target_version: TargetVersion::EsNext,
    };
    assert_eq!(
        resolve(descriptor),
        Ok(CompilerConfig {
            syntax: SyntaxSpec::TypeScript { tsx: true },
            target_version: TargetVersion::EsNext,
            loose_mode: false,
            minify: MinifySettings { compress: false, mangle: false },
            react: ReactTransformSpec {
                runtime: ReactRuntime::Automatic,
                refresh: None,
                development: true,
            },
            module: ModuleFormat::CommonJs,
        })
    );
}
