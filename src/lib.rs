pub mod text;
pub mod log_buffer;
pub mod port;
pub mod resolver;
pub mod broadcast;
pub mod server_state;
pub mod launch;
pub mod script;
pub mod settings;
