pub mod field_extension;
