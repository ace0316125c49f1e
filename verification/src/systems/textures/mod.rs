//! Texture manifest data and material selection: which material each
//! paddle, ball, brick and wall receives, and the level overrides of the
//! ground, background and side walls. Material handles are identified by
//! the bits of their asset id.

pub mod contracts;
pub mod loader;
pub mod materials;
pub mod overrides;
