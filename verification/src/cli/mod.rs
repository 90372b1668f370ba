pub mod main;
pub mod ux;
