//! The admin console's side: its profiles, its terminals and its updates.

pub mod enroll;
pub mod lock;
pub mod profiles;
pub mod settings;
pub mod shell;
pub mod updates;
