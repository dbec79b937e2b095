pub mod curves;
pub mod point;
pub mod traits;
pub mod laws;
pub mod closure_identity;
