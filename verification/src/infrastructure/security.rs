pub mod identity;
