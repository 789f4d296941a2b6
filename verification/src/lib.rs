//! A blocking resource offloaded onto a worker: the deadline timer, the byte
//! buffers staged between resource and protocol, the request/response
//! vocabulary, and the worker's and the controller's lifecycles as verified
//! state machines. Threads, channels and files are supplied by the caller.

pub mod buffer;
pub mod error;
pub mod fio;
pub mod timer;
pub mod trace;
pub mod worker;
