pub mod gtfs;
pub mod gtfscsv;
pub mod gtfsdb;
