//! The fast-refresh settings the React transform ships with.

use vstd::prelude::*;

use crate::config::{RefreshOptions, RefreshOptionsView};

verus! {

/// The settings the React transform uses for fast refresh when a project
/// gives none: components are registered through `$RefreshReg$`,
/// signatures are created through `$RefreshSig$` and are hashed.
pub open spec fn default_refresh_options() -> RefreshOptionsView {
    RefreshOptionsView {
        refresh_reg: "$RefreshReg$"@,
        refresh_sig: "$RefreshSig$"@,
        emit_full_signatures: false,
    }
}

/// Calls `swc_ecma_transforms_react::RefreshOptions::default()` and copies
/// its three fields.
///
/// Trusted: that the transform's defaults are the two names and the flag
/// of [`default_refresh_options`], as its `Default` impl gives them.
#[verifier::external_body]
fn upstream_refresh_defaults() -> (options: RefreshOptions)
    ensures
        options@ == default_refresh_options(),
{
    let defaults = swc_ecma_transforms_react::RefreshOptions::default();
    RefreshOptions {
        refresh_reg: defaults.refresh_reg.to_string(),
        refresh_sig: defaults.refresh_sig.to_string(),
        emit_full_signatures: defaults.emit_full_signatures,
    }
}

impl Default for RefreshOptions {
    /// The settings the React transform ships with.
    fn default() -> (options: RefreshOptions)
        ensures
            options@ == default_refresh_options(),
    {
        upstream_refresh_defaults()
    }
}

} // verus!
