pub mod event;
pub mod pump;
pub mod session;
pub mod inert;
pub mod facade;
