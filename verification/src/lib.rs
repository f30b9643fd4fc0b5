//! Hardware-facing core of a small x86 kernel: processor identification,
//! interrupt dispatch and the decisions of the serial driver and of the boot
//! sequence, stated over plain values so that the code which touches the
//! hardware stays a thin shell around them.

pub mod boot;
pub mod cpu;
pub mod serial;
