pub mod client;
pub mod header;
pub mod packet;
pub mod protocol;
pub mod server;
