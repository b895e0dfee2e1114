pub mod check_uuid;
pub mod verify;
pub mod email;
pub mod email_reset;
pub mod password;
pub mod email_change;
