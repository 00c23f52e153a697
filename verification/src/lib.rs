pub mod access;
pub mod boot;
pub mod bus;
pub mod bytes;
pub mod config;
pub mod exchange;
pub mod fw;
pub mod messages;
pub mod regions;
pub mod rpu;

pub use exchange::Message;
