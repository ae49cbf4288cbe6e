//! A minimal HTTP/1.x responder: three fixed handlers and a router that
//! dispatches on the method and path of a request's first line.

pub mod handlers;
pub mod router;
