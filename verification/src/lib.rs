//! A particle-based combustion simulator.
//!
//! A fire is modelled as a population of typed particles (fuel, heat, smoke,
//! ember) that are spawned, advected, aged and retired once per tick according
//! to a small set of tunable parameters. All physical quantities are carried
//! as fixed-point integers: one simulation unit (pixel, second, degree) is
//! [`fixed::SCALE`] fixed-point steps.

pub mod config;
pub mod assets;
pub mod color;
pub mod constants;
pub mod fixed;
pub mod laws;
pub mod particle;
pub mod params;
pub mod rng;
pub mod sim;
pub mod spawn;
