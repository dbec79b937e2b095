pub mod tiny_jub_jub;
pub mod tiny_jub_jub_group;
