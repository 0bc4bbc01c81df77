pub mod json;
pub mod parser;
pub mod decode;
pub mod fields;
pub mod blocks;
pub mod document;
pub mod renderer;
pub mod laws;
pub mod templating;
pub mod ui;
pub mod api;
