pub mod mobile;
pub mod web;
