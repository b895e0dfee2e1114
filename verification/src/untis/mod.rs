pub mod types;
pub mod dates;
pub mod sorting;
pub mod format;
pub mod lernbueros;
pub mod free_rooms;
pub mod calendar;
pub mod client;
pub mod laws;
pub mod fetch;
