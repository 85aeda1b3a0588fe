//! Orchestration of a small accelerator benchmark: two fixed numeric kernels
//! (element-wise vector addition and dense matrix multiplication), the order of
//! the pipeline phases that run them, how a failure in any phase ends a run,
//! how results are checked, and the phase timing report.
//!
//! The library holds no device handle. A driver performs each action that the
//! pipeline hands out on a real accelerator and reports back what happened.
//! Host data travels as IEEE-754 single-precision bit patterns (`u32`).

pub mod encoding;
pub mod pipeline;
pub mod scenario;
pub mod timing;
