pub mod download;
pub mod visit;
