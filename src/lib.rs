//! Clock-tree management for SAM D5x/E5x microcontrollers: generic clock
//! generators and digital phase-locked loops, with register access types.
pub mod pac;
pub mod source;
pub mod gclk;
pub mod dpll;
