//! A small fabric of programmable register-machine cores in the style of
//! the TIS-100: each core runs a tiny assembly language against two
//! registers and four directional ports, ports rendezvous over bounded
//! capacity-one channels, and a two-pass assembler turns text into a
//! core's program.

pub mod ctrl_flow_instructions;
pub mod laws;
pub mod machine;
pub mod mut_instructions;
pub mod num;
pub mod parse;
pub mod port;
pub mod resource;
pub mod sandbox;
pub mod text;
