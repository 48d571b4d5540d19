//! Point-mass exterior ballistics in exact integer arithmetic.
//!
//! Every physical quantity is an integer count of a small canonical unit
//! (nanometres, nanoseconds, nanoradians, ...), so a trajectory is a pure
//! function of its configuration and every run of it is reproducible.
//!
//! A run goes from options to a range table: [`options`] gathers the
//! parameters of a simulation, [`config`] checks them, [`zero`] finds the
//! launch angles that put the projectile on a target, [`trajectory`] hands
//! out the flight snapshot by snapshot, [`table`] picks the rows of a range
//! table from it, and [`report`] sets them as text.  Beneath them,
//! [`integrator`] advances the state of the projectile under the forces of
//! [`force`], which draws on the air of [`atmosphere`] and on the drag
//! curves of [`drag`].  [`laws`] states what holds of every flight.

pub mod atmosphere;
pub mod config;
pub mod curve;
pub mod drag;
pub mod error;
pub mod fixed;
pub mod force;
pub mod integrator;
pub mod laws;
pub mod measure;
pub mod options;
pub mod report;
pub mod table;
pub mod tables;
pub mod trajectory;
pub mod trig;
pub mod units;
pub mod vector;
pub mod zero;
