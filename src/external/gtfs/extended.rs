pub mod course;
pub mod errors;
pub mod nodes;
pub mod service_route_identity;
pub mod service_route_laws;
pub mod service_routes;
pub mod stop_time_details;
pub mod stop_time_query;
pub mod trips2courses;
pub mod trips2service_routes;
