//! Pipeline for packaging a user-authored 2D game module as a mobile
//! application: entry-point discovery over the module's source text,
//! synthesis of a native bridge source unit (with an embedded glyph-atlas
//! text renderer), per-architecture build orchestration, artifact
//! placement, and driving of the platform packaging system; together
//! with the engine context the generated code forwards to.

pub mod bridge;
pub mod discovery;
pub mod engine;
pub mod input;
pub mod manifest;
pub mod paths;
pub mod placement;
pub mod pipeline;
pub mod runner;
pub mod text;
