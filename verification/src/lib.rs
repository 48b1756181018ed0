//! A minimal growable contiguous-storage container with a verified growth
//! policy: append and remove-from-end keep the live elements within the
//! reserved slots, and the reservation doubles exactly when it is full.

pub mod vec;
