//! Transit-feed records and the engine that collapses scheduled trips into
//! stable, deduplicated patterns (service routes and courses).
pub mod api;
pub mod external;
pub mod io;
pub mod joined;
pub mod service;
