//! Operator-input logic for a machine-tool jog pendant.
//!
//! The library models the state-coordination core of the pendant: the
//! quadrature-encoder delta/velocity decode, the selector resolution and
//! debounce rules, the emergency-stop latch, the priority-ceiling shared
//! state store, and the priority-preemptive scheduler core. Hardware register
//! access and display rendering stay outside; every function here works on
//! plain values and carries a verified contract.

pub mod axis;
pub mod encoder;
pub mod errors;
pub mod estop;
pub mod multiplier;
pub mod pendant;
pub mod sched;
pub mod selector;
pub mod store;
pub mod tasks;
