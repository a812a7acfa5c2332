//! A fixed-capacity LIFO store: up to `N` values of `T`, pushed and popped
//! at one end, with checked and unchecked indexed access to the occupied
//! region and a view of that region as a slice.

pub mod pot;
pub mod laws;

pub use pot::{CapacityExceeded, FlowerPot};
