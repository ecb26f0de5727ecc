pub mod checksum;
pub mod errors;
pub mod logger;
pub mod text;
