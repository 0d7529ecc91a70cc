//! Local license activation: the activation state machine, the store and
//! notification effects each operation asks for, and entitlement status.
pub mod activation;
pub mod laws;
pub mod status;
