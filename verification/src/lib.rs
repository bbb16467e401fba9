//! Sans-I/O core of a host-side library for machine-vision cameras that stream
//! image blocks over bulk USB endpoints.
//!
//! Nothing in this crate touches a device. Every operation that needs the bus is
//! split into a request that says what to do and a function that takes the
//! outcome, so that each decision is a verified function of plain values.
//!
//! The stream is the heart of it: `protocol` decodes the leader and the trailer
//! that frame a block, `payload` builds the payload of a block, `stream_read`
//! plans the reads of a block, `streaming_loop` is the worker that reads block
//! after block, and `stream_handle` owns the life cycle of that worker.
//! `channel`, `transport` and `register_map` are the device below the stream;
//! `camera`, `device_info`, `genapi` and `gentl` are what stands around it.

pub mod camera;
pub mod channel;
pub mod device_info;
pub mod error;
pub mod genapi;
pub mod gentl;
pub mod payload;
pub mod protocol;
pub mod register_map;
pub mod stream_handle;
pub mod stream_params;
pub mod stream_read;
pub mod streaming_loop;
pub mod text;
pub mod transport;
