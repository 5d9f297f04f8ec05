//! Settings of the global (simultaneous) bootstrapper, which fits all
//! pillars at once with Newton iterations.
//!
//! Floating-point settings are carried as their IEEE-754 bit patterns
//! (`f64::to_bits`), so that the value is reproduced exactly.
use vstd::prelude::*;
use crate::bootstrap_config::BootstrapInterpolation;

verus! {

/// Bits of 1e-10, the default residual and parameter tolerance.
pub const GLOBAL_DEFAULT_TOLERANCE_BITS: u64 = 0x3ddb_7cdf_d9d7_bdbb;
/// Bits of 1e-8, the default Jacobian step.
pub const GLOBAL_DEFAULT_EPSILON_BITS: u64 = 0x3e45_798e_e230_8c3a;
/// Bits of 1e-14, the high-precision tolerance.
pub const GLOBAL_PRECISE_TOLERANCE_BITS: u64 = 0x3d06_849b_86a1_2b9b;
/// Bits of 1e-10, the high-precision Jacobian step.
pub const GLOBAL_PRECISE_EPSILON_BITS: u64 = 0x3ddb_7cdf_d9d7_bdbb;
/// Bits of 1e-6, the fast tolerance and Jacobian step.
pub const GLOBAL_FAST_BITS: u64 = 0x3eb0_c6f7_a0b5_ed8d;

/// Settings of the global bootstrapper.
#[derive(Debug, Clone, Copy, PartialEq, Eq, Structural)]
pub struct GlobalBootstrapConfig {
    /// Tolerance on the residual norm, as `f64` bits.
    pub tolerance_bits: u64,
    /// Tolerance on the parameter change, as `f64` bits.
    pub param_tolerance_bits: u64,
    /// Maximum number of Newton iterations.
    pub max_iterations: usize,
    /// Step of the numerical Jacobian, as `f64` bits.
    pub jacobian_epsilon_bits: u64,
    /// Whether the Jacobian inverse is kept for sensitivities.
    pub store_jacobian_inverse: bool,
    /// Interpolation method of the output curve.
    pub interpolation: BootstrapInterpolation,
    /// Whether the output curve extrapolates.
    pub allow_extrapolation: bool,
}

impl Default for GlobalBootstrapConfig {
    fn default() -> (r: Self)
        ensures
            r == (GlobalBootstrapConfig {
                tolerance_bits: GLOBAL_DEFAULT_TOLERANCE_BITS,
                param_tolerance_bits: GLOBAL_DEFAULT_TOLERANCE_BITS,
                max_iterations: 100,
                jacobian_epsilon_bits: GLOBAL_DEFAULT_EPSILON_BITS,
                store_jacobian_inverse: true,
                interpolation: BootstrapInterpolation::LogLinear,
                allow_extrapolation: true,
            }),
    {
        GlobalBootstrapConfig {
            tolerance_bits: GLOBAL_DEFAULT_TOLERANCE_BITS,
            param_tolerance_bits: GLOBAL_DEFAULT_TOLERANCE_BITS,
            max_iterations: 100,
            jacobian_epsilon_bits: GLOBAL_DEFAULT_EPSILON_BITS,
            store_jacobian_inverse: true,
            interpolation: BootstrapInterpolation::LogLinear,
            allow_extrapolation: true,
        }
    }
}

impl GlobalBootstrapConfig {
    /// The default settings with one tolerance for residuals and parameters.
    pub fn new(tolerance_bits: u64, max_iterations: usize) -> (r: Self)
        ensures
            r == (GlobalBootstrapConfig {
                tolerance_bits,
                param_tolerance_bits: tolerance_bits,
                max_iterations,
                jacobian_epsilon_bits: GLOBAL_DEFAULT_EPSILON_BITS,
                store_jacobian_inverse: true,
                interpolation: BootstrapInterpolation::LogLinear,
                allow_extrapolation: true,
            }),
    {
        GlobalBootstrapConfig {
            tolerance_bits,
            param_tolerance_bits: tolerance_bits,
            max_iterations,
            ..Self::default()
        }
    }

    /// High precision: tolerances 1e-14, 500 iterations, Jacobian step 1e-10.
    pub fn high_precision() -> (r: Self)
        ensures
            r == (GlobalBootstrapConfig {
                tolerance_bits: GLOBAL_PRECISE_TOLERANCE_BITS,
                param_tolerance_bits: GLOBAL_PRECISE_TOLERANCE_BITS,
                max_iterations: 500,
                jacobian_epsilon_bits: GLOBAL_PRECISE_EPSILON_BITS,
                store_jacobian_inverse: true,
                interpolation: BootstrapInterpolation::LogLinear,
                allow_extrapolation: true,
            }),
    {
        GlobalBootstrapConfig {
            tolerance_bits: GLOBAL_PRECISE_TOLERANCE_BITS,
            param_tolerance_bits: GLOBAL_PRECISE_TOLERANCE_BITS,
            max_iterations: 500,
            jacobian_epsilon_bits: GLOBAL_PRECISE_EPSILON_BITS,
            store_jacobian_inverse: true,
            interpolation: BootstrapInterpolation::LogLinear,
            allow_extrapolation: true,
        }
    }

    /// Fast: tolerances and Jacobian step 1e-6, 50 iterations, no stored inverse.
    pub fn fast() -> (r: Self)
        ensures
            r == (GlobalBootstrapConfig {
                tolerance_bits: GLOBAL_FAST_BITS,
                param_tolerance_bits: GLOBAL_FAST_BITS,
                max_iterations: 50,
                jacobian_epsilon_bits: GLOBAL_FAST_BITS,
                store_jacobian_inverse: false,
                interpolation: BootstrapInterpolation::LogLinear,
                allow_extrapolation: true,
            }),
    {
        GlobalBootstrapConfig {
            tolerance_bits: GLOBAL_FAST_BITS,
            param_tolerance_bits: GLOBAL_FAST_BITS,
            max_iterations: 50,
            jacobian_epsilon_bits: GLOBAL_FAST_BITS,
            store_jacobian_inverse: false,
            interpolation: BootstrapInterpolation::LogLinear,
            allow_extrapolation: true,
        }
    }

    /// Sets the interpolation method.
    pub fn with_interpolation(self, method: BootstrapInterpolation) -> (r: Self)
        ensures
            r == (GlobalBootstrapConfig { interpolation: method, ..self }),
    {
        GlobalBootstrapConfig { interpolation: method, ..self }
    }

    /// Sets whether the Jacobian inverse is kept.
    pub fn with_jacobian_inverse(self, store: bool) -> (r: Self)
        ensures
            r == (GlobalBootstrapConfig { store_jacobian_inverse: store, ..self }),
    {
        GlobalBootstrapConfig { store_jacobian_inverse: store, ..self }
    }
}

} // verus!
