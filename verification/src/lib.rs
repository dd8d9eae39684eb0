//! Verified decision logic of a lander's flight software: flight phases and
//! their transitions, the flight termination check, the per-step supervisor
//! of the control loop, and the discrete parts of navigation, guidance
//! reference sampling, roll control and telemetry.
pub mod phase;
pub mod safety;
pub mod supervisor;
pub mod navigation;
pub mod reference;
pub mod rcs;
pub mod telemetry;
