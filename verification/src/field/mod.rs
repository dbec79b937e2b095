pub mod arithmetic;
pub mod element;
pub mod fields;
pub mod traits;
