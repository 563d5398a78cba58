pub mod intersection;
pub mod point;
pub mod scalar;
