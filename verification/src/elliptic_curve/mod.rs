pub mod edwards;
pub mod montgomery;
pub mod point;
pub mod short_weierstrass;
pub mod traits;
pub mod monomials;
pub mod order_twenty;
