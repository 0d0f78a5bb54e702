//! Wire protocol, receiver-configuration rules and helper logic of a
//! remote-control system for software-defined radios: packet encoding and
//! decoding, the server's settings file, virtual-receiver sizing, audio
//! routing and buffering decisions, server discovery and the status panel.

pub mod codes;
pub mod wire;
pub mod flags;
pub mod header;
pub mod control;
pub mod heartbeat;
pub mod audio;
pub mod spectrum;
pub mod text;
pub mod scan;
pub mod settings;
pub mod settings_file;
pub mod settings_save;
pub mod settings_laws;
pub mod settings_roundtrip;
pub mod settings_loaded;
pub mod vrx;
pub mod wav;
pub mod discovery;
pub mod panel;
pub mod tuner_panel;
pub mod routing;
pub mod audio_flow;
pub mod spot;
pub mod equipment;
pub mod yaesu;
pub mod packet;
