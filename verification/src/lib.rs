//! A minimal sequential TCP request server, as a verified library.
//!
//! The library holds the server's decision logic: the parse-decision policy
//! that declares when a request is complete, the per-connection session state
//! machine that accumulates bytes under a read deadline, the decoding of the
//! finished buffer into text, and the listener's error policy. The socket
//! work itself (bind, accept, timed reads, logging) is left to a thin driver
//! outside the library, which feeds each outcome back in as a plain event.

pub mod decode;
pub mod listener;
pub mod parser;
pub mod session;
