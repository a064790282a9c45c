//! Records fetched from the airnet service, as the mapping algorithm reads
//! them.

pub mod types;
