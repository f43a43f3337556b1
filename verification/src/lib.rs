//! Decision logic of a network diagnostic utility: parsing captured packet
//! lines, sequencing a capture session and its background traffic, and
//! rendering what is shown to the operator.

pub mod capture;
pub mod color;
pub mod command;
pub mod diagnostics;
pub mod packet;
pub mod report;
pub mod session_laws;
pub mod text;
pub mod traffic;
