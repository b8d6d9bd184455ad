pub mod text;
pub mod weburl;
pub mod config;
pub mod desktop;
pub mod icons;
pub mod encoding;
pub mod probe;
pub mod sources;
pub mod commands;
pub mod window;
pub mod launch;
