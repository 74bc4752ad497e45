//! What holds of the simulation as a whole, proved from the definitions of
//! its parts.

pub mod journey;
pub mod lights;
pub mod motion;
pub mod order;
pub mod step;
pub mod waiting;
