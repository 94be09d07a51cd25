pub mod settings;
pub mod crypto;
pub mod logger;
pub mod result;
pub mod tree;
pub mod utils;
pub mod xtime;
