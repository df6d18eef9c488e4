//! Simulation and rendering core of a small orbital-flight game: a flat,
//! handle-addressed command list that is interpreted once per frame, the
//! landing-gear state machine and ship controls that drive it, and the
//! authored prop geometry fed to it at setup.
pub mod assets;
pub mod gear;
pub mod gfx;
pub mod mesh;
pub mod planet;
pub mod scalar;
pub mod ship;
