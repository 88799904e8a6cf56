//! Proxy engines: binary lookup, profile rendering and the launch command.

use vstd::prelude::*;
use crate::config::{AppConfig, EngineKind};

pub mod mihomo;
pub mod singbox;

pub use mihomo::MihomoEngine;
pub use singbox::SingBoxEngine;

verus! {

/// What preparing an engine leaves on disk.
#[derive(Debug, Clone)]
pub struct EngineArtifacts {
    pub render_path: String,
}

/// Why an engine cannot be used.
#[derive(Debug, Clone, PartialEq, Eq)]
pub enum EngineError {
    BinaryNotFound { engine: EngineKind, binary: String },
}

/// The text of an engine error.
pub open spec fn engine_error_message(e: EngineError) -> Seq<char> {
    match e {
        EngineError::BinaryNotFound { engine: EngineKind::Mihomo, binary } =>
            "cannot find mihomo binary: "@ + binary@ + " (please install or adjust executables.mihomo)"@,
        EngineError::BinaryNotFound { engine: EngineKind::SingBox, binary } =>
            "cannot find sing-box binary: "@ + binary@ + " (please install or adjust executables.sing_box)"@,
    }
}

impl EngineError {
    /// The human-readable text of the error.
    pub fn message(&self) -> (r: String)
        ensures
            r@ == engine_error_message(*self),
    {
        match self {
            EngineError::BinaryNotFound { engine: EngineKind::Mihomo, binary } => {
                let mut r = "cannot find mihomo binary: ".to_owned();
                r.append(binary.as_str());
                r.append(" (please install or adjust executables.mihomo)");
                r
            },
            EngineError::BinaryNotFound { engine: EngineKind::SingBox, binary } => {
                let mut r = "cannot find sing-box binary: ".to_owned();
                r.append(binary.as_str());
                r.append(" (please install or adjust executables.sing_box)");
                r
            },
        }
    }
}

/// The outcome of a binary lookup for `engine` whose executable is `binary`.
pub open spec fn binary_outcome(engine: EngineKind, binary: String, found: bool) -> Result<(), EngineError> {
    if found {
        Ok(())
    } else {
        Err(EngineError::BinaryNotFound { engine, binary })
    }
}

/// Decides an engine's binary check from the lookup's result.
pub fn check_binary(engine: EngineKind, binary: &String, found: bool) -> (r: Result<(), EngineError>)
    ensures
        r == binary_outcome(engine, *binary, found),
{
    if found {
        Ok(())
    } else {
        Err(EngineError::BinaryNotFound { engine, binary: binary.clone() })
    }
}

} // verus!
