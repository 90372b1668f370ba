pub mod create;
pub mod resize;
pub mod unlock;
pub mod close;
pub mod close_all;
pub mod slam;
pub mod enroll;
pub mod revoke;
pub mod info;
