pub mod config;
pub mod decimal;
pub mod errors;
pub mod opengraph;
pub mod response;
pub mod routing;
pub mod service;
pub mod video;
