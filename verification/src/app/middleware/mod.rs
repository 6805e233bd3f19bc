pub mod session_user;
