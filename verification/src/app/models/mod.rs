pub mod author;
pub mod reference_item;
pub mod session;
pub mod timestamp;
pub mod user;
