//! Verified core of a command-line tool that creates or updates a Java
//! module on a Sankhya server: request templating, endpoint URLs, the
//! decisions taken on each server reply, and the order of the whole upload.
pub mod endpoint;
pub mod login;
pub mod replies;
pub mod requests;
pub mod resources;
pub mod schemas;
pub mod string_utils;
pub mod template;
pub mod workflow;
