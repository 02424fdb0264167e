//! The logic behind the administration pages of an identity management server.
pub mod apps;
pub mod attribute;
pub mod entry;
pub mod form;
pub mod groups;
pub mod ident;
pub mod link;
pub mod listing;
pub mod moment;
pub mod oauth2;
pub mod pagination;
pub mod persons;
pub mod reply;
pub mod request;
pub mod routes;
pub mod settings;
pub mod text;
