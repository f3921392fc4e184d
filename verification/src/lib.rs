//! Core of an on-device firmware update agent: the update lifecycle state
//! machine and its command bus, kept free of I/O. The embedding program
//! performs the outside work (network, storage, processes, waiting) that the
//! machine asks for and hands the answers back.

pub mod address;
pub mod channel;
pub mod clock;
pub mod cloud;
pub mod error;
pub mod firmware;
pub mod http_api;
pub mod logger;
pub mod machine;
pub mod persistence;
pub mod runtime_settings;
pub mod settings;
pub mod startup;
pub mod states;
pub mod target_type;
pub mod text;
pub mod update_package;
