//! The request-serving design: after the key exchange a connection
//! waits for an intent, serves that request, and waits for the next intent.
pub mod handlers;
pub mod util;
