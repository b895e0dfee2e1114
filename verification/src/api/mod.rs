pub mod admin;
pub mod change_email;
pub mod change_password;
pub mod change_untis_data;
pub mod check_session;
pub mod delete;
pub mod flow;
pub mod forgot_password;
pub mod gdpr_data_compliance;
pub mod reply;
pub mod laws;
pub mod link;
pub mod login;
pub mod logout;
pub mod logout_all;
pub mod register;
pub mod resend_mail;
pub mod response;
pub mod schedule;
pub mod verified;
