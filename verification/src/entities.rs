//! The records exchanged with the service, in three shapes: `get` holds the
//! full records the service returns, `post` the fields needed to create an
//! entity, and `patch` the fields of a partial update.

pub mod get;
pub mod patch;
pub mod post;
