pub mod persistence;
pub mod repository;
pub mod security;
