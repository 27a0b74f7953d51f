pub mod session;
