//! Verified core of a single-threaded asynchronous runtime: channels, locks,
//! clocks, pipes and the ring operations under them, and an HTTP client and
//! server on top.
//!
//! The modules hold the state and the decisions; they neither wait nor touch a
//! descriptor. Where a task would wait, a function says so, and says which tasks
//! a change wakes. Where bytes would be sent or read, a function says what to
//! send, or takes what was read.

pub mod async_channel;
pub mod async_lock;
pub mod async_oneshot;
pub mod async_reader_writer_lock;
pub mod async_semaphore;
pub mod buffer_pipe;
pub mod cancellation_token;
pub mod clock;
pub mod configuration;
pub mod errno;
pub mod errors;
pub mod event;
pub mod handle_table;
pub mod io_scope;
pub mod io_type;
pub mod message_pipe;
pub mod mut_in_place_cell;
pub mod pointer_buffer;
pub mod prefix_buffer;
pub mod ring_future;
pub mod text;
pub mod time;
pub mod web;
