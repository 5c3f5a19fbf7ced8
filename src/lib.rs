//! Expansion of per-instance system registrations for a batch of
//! independent board-and-ball simulations, with the integer decisions of
//! each simulation.
pub mod board;
pub mod decimal;
pub mod expansion;
pub mod generator;
