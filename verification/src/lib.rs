pub mod access;
pub mod album;
pub mod download;
pub mod json;
pub mod laws;
pub mod resolve;
pub mod text;
pub mod track;
