//! Decisions, state machines and wire formats of a single-file remote
//! assistance client.

pub mod text;
pub mod wire;
pub mod random;
pub mod digest;
pub mod keys;
pub mod hex_text;
pub mod sos_constants;
pub mod sos_pipe;
pub mod sos_input;
pub mod sos_shmem;
pub mod sos_capture;
pub mod sos_config;
pub mod sos_file_transfer;
pub mod sos_login;
pub mod sos_connection;
pub mod sos_service;
pub mod sos_rendezvous;
pub mod sos_system;
pub mod sos_tray;
pub mod sos_bootstrap;
pub mod laws;
