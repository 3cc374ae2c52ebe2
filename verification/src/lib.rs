//! Probability density functions: the order, shape and control logic of the
//! densities, with their contracts and laws.

pub mod order;
pub mod domain;
pub mod univariate;
pub mod multivariate;
pub mod particle;
pub mod sampling;
pub mod pytypes;

pub use domain::{Domain, DomainModel};
pub use multivariate::MultivariateDensity;
pub use sampling::{MhChoice, SamplingAction, SamplingMode, SamplingOutcome};
pub use univariate::{
    ConstantDensity, CosineDensity, LogUniformDensity, LognormalDensity, NormalDensity,
    UniformDensity, UnivariateDensity,
};
