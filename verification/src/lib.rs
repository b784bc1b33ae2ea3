//! Small ergonomic helpers around `Option` and `Result`: a wrapper that runs a
//! computation as an immediately-invoked nullary closure (so that early-return
//! propagation with `?` can be used inside functions whose own return type
//! does not support it), a `Discard` operation that consumes a container and
//! yields unit, and the decision half of an asynchronous map over the two
//! container types.

pub mod traits;
pub mod wrapper;

pub use traits::Discard;
pub use traits::MapStep;
pub use traits::option_async_map_step;
pub use traits::option_async_map_finish;
pub use traits::result_async_map_step;
pub use traits::result_async_map_finish;
pub use wrapper::wrap_call;
pub use wrapper::wrap_produce_success;
pub use wrapper::wrap_produce_failure;
pub use wrapper::wrap_produce_present;
pub use wrapper::wrap_produce_absent;
