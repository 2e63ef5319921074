//! A small dependency-injection container with three lifetimes: transient,
//! scoped and singleton.

pub mod container;
pub mod fetch;
pub mod lifetime;
pub mod print;
pub mod worker;

pub use container::{DependencyContainer, DependencyContainerImpl, Lineage};
pub use fetch::{Fetch, RealFetcher, Timestamp};
pub use print::{FilePrinter, Print, Printer, RealPrinter};
pub use worker::{tidy, Worker};
