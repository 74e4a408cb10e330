//! Planning of the async methods and futures that an `async_poll_trait`
//! attribute adds to a trait, over a plain model of the trait's syntax.
pub mod meta;
pub mod model;
pub mod naming;
pub mod output_type;
pub mod plan;
pub mod receiver;
pub mod shape;
pub mod text;
