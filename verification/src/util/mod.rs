pub mod keycodes;
