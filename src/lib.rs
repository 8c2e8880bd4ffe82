pub mod address;
pub mod gate;
pub mod port;
pub mod probe;
pub mod supervisor;
pub mod text;
