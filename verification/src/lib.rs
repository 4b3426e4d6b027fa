//! Verified core of the Stress Center system monitor: the `stress-ng`
//! command line, its output handling and process-group bookkeeping, the
//! state of the Stress page, and the layout and selection rules of the
//! CPU, GPU and disk-partition views.

pub mod text;
pub mod stress;
pub mod cpu;
pub mod gpu;
pub mod partition;
pub mod icons;
pub mod summary;
