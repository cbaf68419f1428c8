//! The engine's error taxonomy.
//!
//! Every fatal engine condition carries the data its human-readable
//! message is composed from; the message itself is a pure function of
//! that data.  All of these abort the invocation — the engine never
//! retries.

use vstd::prelude::*;
use vstd::string::StringExecFns;

use crate::utils::spec_rootfs_missing_message;

verus! {

/// A fatal engine condition.
#[derive(Clone, Debug)]
pub enum EngineError {
    /// The configured backend identifier is not one of the supported
    /// kinds.
    Configuration { backend_name: String },
    /// The rootfs path does not exist as a directory.
    RootfsMissing { app_name: String, rootfs: String },
    /// The backend executable was not found and cannot be downloaded for
    /// this architecture.
    BackendUnavailable { command_name: String },
}

/// The single human-readable line (or block) each error surfaces.
pub open spec fn spec_error_message(e: EngineError) -> Seq<char> {
    match e {
        EngineError::Configuration { backend_name } => {
            "Unsupported rootfs command: "@ + backend_name@
        },
        EngineError::RootfsMissing { app_name, rootfs } => {
            spec_rootfs_missing_message(app_name@, rootfs@)
        },
        EngineError::BackendUnavailable { command_name } => {
            command_name@
                + " not found in the system and no binary is available for this architecture"@
        },
    }
}

impl EngineError {
    /// Renders the error's message.
    pub fn message(&self) -> (r: String)
        requires
            self matches EngineError::RootfsMissing { app_name, .. } ==> app_name@.len() + 16
                <= usize::MAX,
        ensures
            r@ == spec_error_message(*self),
    {
        match self {
            EngineError::Configuration { backend_name } => {
                let mut m = String::from_str("Unsupported rootfs command: ");
                m.append(backend_name.as_str());
                m
            },
            EngineError::RootfsMissing { app_name, rootfs } => {
                match crate::utils::check_rootfs_exists(app_name.as_str(), rootfs.as_str(), false) {
                    Err(m) => m,
                    Ok(_) => String::new(),  // unreachable: a probe of `false` always errs
                }
            },
            EngineError::BackendUnavailable { command_name } => {
                let mut m = String::from_str(command_name.as_str());
                m.append(" not found in the system and no binary is available for this architecture");
                m
            },
        }
    }
}

} // verus!
