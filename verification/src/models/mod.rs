pub mod lb;
pub mod user;
pub mod links;
pub mod session;
