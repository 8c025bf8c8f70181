//! Backend commands of a desktop application: credentials kept in the
//! platform secret store, recursive directory copies, and a process-wide
//! counter. Each command hands its work to one outside library and maps
//! the outcome into a two-way response for the front end.
pub mod copy;
pub mod counter;
pub mod credentials;
pub mod error;
