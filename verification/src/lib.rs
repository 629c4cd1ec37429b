//! Decision logic of a camera-to-alert face screening pipeline.
//!
//! The crate holds the parts of the pipeline that decide something: how a
//! captured buffer becomes a numbered frame, how frames pass from the capture
//! thread to the consumer, how a gallery of reference identities is built, and
//! when a frame raises an alert. Camera access, face recognition and rendering
//! are performed by the caller, which feeds their results into the state
//! machines defined here.

pub mod alert;
pub mod builder;
pub mod capture;
pub mod channel;
pub mod embedding;
pub mod engine;
pub mod frame;
pub mod gallery;
pub mod image_matrix;
pub mod raster;
pub mod recognition;
pub mod tensor;
