//! A robot on a grid of integer cells, driven by a host that supplies the
//! caller's identity and the current logical time.
//!
//! The robot faces one of four compass directions, turns by quarter turns,
//! advances one cell at a time, and runs scripts of such instructions. It
//! remembers who created it and when it last turned.
//!
//! Every operation is specified against the mathematical state in
//! [`model::RobotView`]. Operations that need the time come in two forms: one
//! asks the host ([`Robot::turn_right`]), the other takes the time as an
//! argument ([`Robot::turn_right_at`]) and needs no host.
//!
//! Coordinates are signed 64-bit integers. A step past either end of that
//! range wraps around to the other end; no operation fails for it.

pub mod direction;
pub mod error;
pub mod host;
pub mod model;
pub mod robot;
pub mod script;

pub use direction::Direction;
pub use error::RobotError;
pub use model::RobotView;
pub use robot::Robot;
