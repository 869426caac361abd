//! A catalogue of products behind a small HTTP service.
//!
//! The service keeps its products in one relational table and offers three
//! operations on it: list every product, create one, delete one by its
//! identifier. This library holds what the service decides and computes, with
//! machine-checked contracts:
//!
//! * [`models`]: the records that travel between the service and its table;
//! * [`table`]: the products relation itself, as the service relies on it;
//! * [`seed`]: the sample rows that an empty table receives at startup;
//! * [`routes`]: the route table and the operation behind each route;
//! * [`server`]: where the service listens and which origin may call it.

pub mod models;
pub mod table;
pub mod seed;
pub mod routes;
pub mod server;
