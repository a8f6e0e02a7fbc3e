//! OpenVINO backend for tensors: runs operations on the Intel NPU, or on any other device that OpenVINO
//! supports, such as a CPU or a GPU.
//!
//! OpenVINO is a graph-level inference engine: a model is compiled once and then run. Tensor programs,
//! by contrast, work with individual operations. The backend bridges the two:
//!
//! * All storage lives on the host as raw bytes ([`storage`]), in the layout of the typed CPU buffers
//!   ([`cpu_storage`]); [`utils`] converts between the two, and nothing is lost on the way ([`laws`]).
//! * Matrix multiplication ([`matmul`]) builds an OpenVINO model with a single operation, compiles it
//!   for the device, and runs it at once ([`inference`]) by calls to the runtime ([`runtime`]).
//! * Every other operation falls back transparently to the CPU: its operands make the round trip to CPU
//!   buffers as a whole, and a CPU kernel ([`backend`]) works on them with the layouts given.
//!
//! A [`device`] holds the OpenVINO runtime behind a lock, so that several handles can share it.
pub mod backend;
pub mod cpu_storage;
pub mod device;
pub mod dtype;
pub mod element;
pub mod error;
pub mod inference;
pub mod laws;
pub mod layout;
pub mod matmul;
pub mod runtime;
pub mod shared;
pub mod storage;
pub mod text;
pub mod utils;

pub use device::OpenVinoDevice;
pub use error::{from_ov_error, OpenVinoError, OpenVinoResult};
pub use storage::OpenVinoStorage;
