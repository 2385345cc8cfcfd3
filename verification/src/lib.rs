//! Word lookup service core: the request and response records, the fixed
//! definition table, the prompt sent to a text-generation provider, and the
//! rules that turn a lookup or a provider reply into a response.

pub mod catalog;
pub mod health;
pub mod message;
pub mod model;
pub mod prompt;
pub mod resolver;
pub mod table;
pub mod text;
