pub mod gtfs;
pub mod route;
pub mod trip;
