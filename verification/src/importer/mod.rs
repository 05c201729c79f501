pub mod text;
pub mod obj;
pub mod optimize;
pub mod texture;
