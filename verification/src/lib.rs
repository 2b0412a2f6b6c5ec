//! Miller-loop core of a pairing over a BLS12-381-class curve: the field tower,
//! the affine curve steps that export their slopes, the line evaluator, the
//! loop driver with its Frobenius corrections, and cube roots in the target
//! field.
pub mod ct;
pub mod limbs;
pub mod montgomery;
pub mod modular;
pub mod fp;
pub mod fp2;
pub mod fp6;
pub mod fp12;
pub mod curve;
pub mod steps;
pub mod line;
pub mod miller;
pub mod cube_root;
pub mod precompute;
