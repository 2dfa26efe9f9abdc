//! The service's routes as served by a web framework: posting a status,
//! reading a user's status and the NodeInfo document.

pub mod api;
pub mod nodeinfo;
pub mod users;
