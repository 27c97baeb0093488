//! A WebP codec adapter for an image-processing pipeline.
//!
//! The adapter decides; its caller acts. Reading and writing streams, allocating
//! pixel memory and running the libwebp routines over raw memory all happen
//! outside this crate. Each operation here is a step function: it takes what the
//! caller last did (an event), updates the adapter, and answers with what the
//! caller has to do next (a step). The caller repeats until the step is final.
//!
//! [`decoder`] and [`encoder`] hold the two adapters and their state machines;
//! [`decoder_laws`] and [`encoder_laws`] prove what every run of them does.
//! [`libwebp`], [`bitmap`], [`records`] and [`errors`] hold the values that go in
//! and out.

pub mod bitmap;
pub mod decoder;
pub mod decoder_laws;
pub mod encoder;
pub mod encoder_laws;
pub mod errors;
pub mod libwebp;
pub mod records;

pub use decoder::WebPDecoder;
pub use encoder::WebPEncoder;
