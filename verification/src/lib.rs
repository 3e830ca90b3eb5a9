pub mod batch;
pub mod catalog;
pub mod envvars;
pub mod executor;
pub mod logring;
pub mod publisher;
pub mod safety;
pub mod sizefmt;
pub mod task;
pub mod text;
