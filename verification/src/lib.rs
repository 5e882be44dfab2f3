pub mod text;
pub mod paths;
pub mod types;
pub mod json;
pub mod output;
pub mod helm;
pub mod commands;
