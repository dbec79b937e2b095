pub mod cyclic_group;
pub mod elliptic_curve;
pub mod field;
pub mod unsigned_integer;
