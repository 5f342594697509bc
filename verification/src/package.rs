pub mod decode;
pub mod encode;
pub mod types;
