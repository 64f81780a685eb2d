//! Domain core of a small shop service: value objects, validation rules,
//! error mapping and the decision logic of the order, product and cache
//! workflows, each stated as a contract and proved.

pub mod text;
pub mod ids;
pub mod clock;
pub mod error;
pub mod value_objects;
pub mod product;
pub mod order;
pub mod order_flow;
pub mod product_flow;
pub mod cache;
pub mod health;
pub mod master_data;
pub mod audit_log;
pub mod config;
pub mod requests;
