//! The routing logic of the WizRD backend, verified with Verus: classifying ways,
//! ordering the ways of a route, building the database queries for routes and map
//! layers, and planning trips with rented vehicles.
pub mod constants;
pub mod infrastructure_class;
pub mod lumi;
pub mod query;
pub mod request;
pub mod route;
pub mod text;
pub mod topology;
pub mod vehicle_kind;
pub mod way;
