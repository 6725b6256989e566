//! Vector unit of the RSP: register file, flag registers, vector arithmetic
//! and vector memory operations over the 4 KiB data scratchpad.

pub mod alu;
pub mod context;
pub mod cop2;
pub mod endian;
pub mod error;
pub mod lane;
pub mod memory;
pub mod output;
pub mod rom;
pub mod step;
pub mod transfer;
pub mod vclip;
pub mod vectorop;
pub mod vload;
pub mod vstore;
pub mod vmul;
pub mod vrcp;
pub mod word;
pub mod vreg;
