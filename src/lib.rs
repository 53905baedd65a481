//! Particle dynamics engine: a data-oriented particle table, the fourth-order
//! Yoshida composition that advances it, the stepped-run driver with its
//! progress estimate, and a density query over gridded points.
//!
//! The engine is generic over the vector and mass types: the arithmetic that
//! moves particles is handed in as closures, and every structural rule of the
//! integration (stage order, which state each stage reads, error propagation,
//! the equal-length invariant of the table) is verified here.

pub mod density;
pub mod field;
pub mod particles;
pub mod yoshida;
pub mod progress;
