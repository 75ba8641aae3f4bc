pub mod address;
pub mod event;
pub mod host;
pub mod limits;
pub mod peer;
