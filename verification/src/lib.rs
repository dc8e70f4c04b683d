//! Verified building blocks of the anaheim service framework: the code
//! generation behind its `config`, `controller` and `service` attributes,
//! HTTP server address handling, telemetry planning and small utilities.

pub mod config;
pub mod telemetry;
pub mod text;
pub mod util;
pub mod http_server;
pub mod derive;
