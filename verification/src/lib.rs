pub mod config;
pub mod image_build;
pub mod laws;
pub mod order;
pub mod scan;
pub mod session;
pub mod state;
pub mod text;
pub mod ui;
pub mod view;
