//! A minimal HTTP/1.1 request pipeline, verified with Verus.
//!
//! The crate covers the logic of a small threaded web server: parsing the
//! request line of an incoming request, routing it to a canned or
//! static-file response, and the dispatch discipline of a fixed-size worker
//! pool fed from a FIFO job queue. The surrounding process (sockets, worker
//! threads, file reads) lives outside the library and hands it plain values.

pub mod pool;
pub mod request;
pub mod response;
