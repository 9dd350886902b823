//! Boot relocation and trap dispatch runtime for a RISC-V microcontroller
//! family, with its logic stated in contracts and verified.
//!
//! The runtime's job splits into five parts: relocating code and data from
//! their load location to their execution location before anything else runs
//! (`relocate`), arming the vectored interrupt controller (`bringup`),
//! classifying traps and resolving them to handlers (`trap`), validating and
//! renaming user-authored handler functions (`registration`), and the
//! firmware container records a boot ROM reads (`header`).
//!
//! Hardware access itself (memory-mapped registers, control and status
//! registers, the assembly entry stubs) cannot be verified and stays outside
//! this crate; every decision those sequences make is computed here, over
//! plain values, and handed out.

pub mod bringup;
pub mod header;
pub mod registration;
pub mod relocate;
pub mod trap;
