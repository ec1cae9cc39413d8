//! The `parallel-future` prelude.

pub use crate::ext::IntoFutureExt as _;
