//! Descriptions of "bottles": isolated containers for foreign-platform
//! applications.
//!
//! The container subsystem is a collaborator of the shell, not part of the
//! animation core: creating a bottle's directories and launching executables
//! inside it are process and filesystem work that the host around this
//! library performs. The library only carries the plain data describing a
//! bottle, so the host and the animation core can share one vocabulary.

use vstd::prelude::*;

verus! {

/// Settings a bottle's runtime environment is created with.
#[derive(Debug, Clone, PartialEq)]
pub struct BottleConfig {
    /// The platform version the environment emulates, such as "win10".
    pub windows_version: String,
    /// Whether the translation layer for 3D graphics is enabled.
    pub dxvk_enabled: bool,
    /// The audio backend to route sound through, such as "pulse".
    pub audio_driver: String,
}

/// One isolated application container.
#[derive(Debug, Clone, PartialEq)]
pub struct Bottle {
    /// Human-readable name.
    pub name: String,
    /// Identifier derived from the name; stable for the bottle's lifetime.
    pub id: String,
    /// Root directory of the bottle, as a plain path.
    pub path: String,
    /// Directory of the emulation prefix inside the bottle.
    pub wine_prefix: String,
    /// The environment settings the bottle runs with.
    pub config: BottleConfig,
}

} // verus!
