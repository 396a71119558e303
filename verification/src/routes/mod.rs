//! One module per route of the service, as the server wires them:
//! `GET /new`, `POST /new`, `GET /poll/{id}`, `POST /poll/{id}/join`,
//! `POST /poll/{id}/suggest`.

pub mod get;
pub mod get_new;
pub mod post_join;
pub mod post_new;
pub mod post_suggest;
