//! Client logic of the xMZ-Plattform GUI: the application controller, the
//! backend that talks to an `xmz-server`, and the URLs it requests.

pub mod app;
pub mod backend;
pub mod error;
pub mod globals;
pub mod utils;

