//! The decisions of a small firmware bootloader: the console's character encoding, the
//! boot menu, and the sequence of firmware calls that loads and starts a Linux kernel.
//! The calls into the firmware themselves are made by the program around this library,
//! which hands each answer back to the functions here.
pub mod status;
pub mod ucs2;
pub mod console;
pub mod firmware;
pub mod decimal;
pub mod menu;
pub mod load_options;
pub mod boot;
