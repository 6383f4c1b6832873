//! Static inference of element types and array shapes over a stack-based
//! instruction sequence, proved sound against a mathematical model of the
//! abstract machine.
pub mod env;
pub mod form;
pub mod instr;
pub mod laws;
