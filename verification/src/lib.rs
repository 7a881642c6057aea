//! Launching a job and following it: the decisions of the job page and of the
//! client of the computing service.
//!
//! Every module here is verified. The surrounding program performs the actions
//! that these state machines ask for and hands the outcomes back.
pub mod client;
pub mod client_laws;
pub mod dok;
pub mod dok_laws;
pub mod env;
pub mod env_laws;
pub mod files;
pub mod ftp;
pub mod job;
pub mod json;
pub mod json_laws;
pub mod local;
pub mod local_laws;
pub mod page;
pub mod page_laws;
pub mod port;
pub mod remote;
pub mod remote_course;
pub mod remote_laws;
pub mod text;
