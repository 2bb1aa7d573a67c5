//! Pastureen: a verified credential issuance and refresh-rotation engine,
//! together with the surrounding site tooling (HTML components, routing
//! tables, table rendering and RPC message types).

pub mod auth;
pub mod blog;
pub mod blog_htmx;
pub mod blog_site;
pub mod cli;
pub mod components;
pub mod csv_iterator;
pub mod fin;
pub mod librarian;
pub mod post_generator;
pub mod proxy;
pub mod prpc;
pub mod publisher;
pub mod refresh_blog;
pub mod refresh_ui;
pub mod shared;
pub mod table;
pub mod text;
