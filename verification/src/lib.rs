//! A signalised four-way intersection.
//!
//! Vehicles enter on four approaches, drive up to the crossing, wait for
//! their light and for the vehicle ahead, make their turn inside the
//! crossing and leave. Coordinates are whole units, time is whole
//! milliseconds, and one tick is one step of every vehicle that may move.
//!
//! - [`geometry`]: the layout, with headings, turns and paints.
//! - [`config`]: speed, durations and distances, and their validation.
//! - [`light`], [`car`]: a traffic light and a vehicle.
//! - [`demand`], [`controller`]: the count of waiting vehicles and the cycle
//!   of the four lights.
//! - [`planner`]: who may enter, who may advance, who turns, who leaves.
//! - [`simulation`]: the vehicles and the lights together, event by event.
//! - [`laws`]: what holds of all of this, whatever happens.
//! - [`chance`], [`counting`]: the draws the simulation makes, and facts
//!   about counting in sequences.

pub mod car;
pub mod chance;
pub mod config;
pub mod controller;
pub mod counting;
pub mod demand;
pub mod geometry;
pub mod laws;
pub mod light;
pub mod planner;
pub mod simulation;
