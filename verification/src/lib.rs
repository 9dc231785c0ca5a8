pub mod routes;
pub mod shutdown;
