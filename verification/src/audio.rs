pub mod analysis;
pub mod beat;
pub mod capture;
pub mod file_player;
pub mod ring_buffer;
pub mod tempo;
pub mod types;
