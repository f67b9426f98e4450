//! A tiny HTTP-like listener: routing of the request line, framing of the
//! response, and the decisions of the connection handler and of the accept
//! loop, each as a verified function. The server around them performs the
//! I/O that these decisions call for.
pub mod acceptor;
pub mod connection;
pub mod laws;
pub mod response;
pub mod route;
