pub mod auth_controller;
pub mod reference_items_controller;
pub mod references_controller;
pub mod registrations_controller;
pub mod sessions_controller;
