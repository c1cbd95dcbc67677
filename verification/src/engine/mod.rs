pub mod command;
pub mod input;
pub mod macros;
pub mod properties;
pub mod virtual_hold;
pub mod random;
pub mod scheduler;
