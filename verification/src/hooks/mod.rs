pub mod channel;
pub mod hotkey;
pub mod recording;
