pub mod bls12_377;
