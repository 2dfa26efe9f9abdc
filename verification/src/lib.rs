//! Request handling for a small ActivityPub-flavoured web service that keeps
//! its statuses in a DynamoDB table: item maps, table requests, identifiers,
//! routing and the decisions of the request handlers.

pub mod activitypub;
pub mod attribute;
pub mod dynamodb;
pub mod handler;
pub mod http;
pub mod routes;
pub mod routing;
