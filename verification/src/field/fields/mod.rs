pub mod montgomery_backed_prime_fields;
pub mod u64_prime_field;
