//! Clock tree configuration for a microcontroller: a builder of requested
//! frequencies, the rules by which some requests imply others, the synthesis
//! of the dividers of each phase locked loop (PLL), and the frozen record of
//! achieved frequencies.
pub mod rcc;
pub mod xspi;
