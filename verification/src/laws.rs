//! What the operations of the client are for: for each of them, what its
//! result is, in terms of what it was given.

pub mod files;
pub mod login;
pub mod connecting;
pub mod registering;
pub mod reaching;
pub mod capturing;
pub mod settings;
pub mod input;
pub mod running;
pub mod serving;
