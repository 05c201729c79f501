pub mod asset_system;
pub mod engine;
