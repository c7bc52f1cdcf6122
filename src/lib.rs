//! A contact store: the record model, the file naming scheme of a
//! file-backed repository, a repository held in memory, and the use cases
//! over any repository.
pub mod models;
pub mod naming;
pub mod repo;
pub mod memory;
pub mod usecases;
