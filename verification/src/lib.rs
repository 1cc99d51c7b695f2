pub mod model;
pub mod schema;
pub mod store;
pub mod response;
pub mod clock;
pub mod handler;
pub mod laws;
