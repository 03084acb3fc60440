//! Tick-driven tracking of background operations.
//!
//! A [`Bind`] follows one asynchronous operation from the moment it is started
//! until its result is read, while the loop that owns it never blocks: it only
//! looks at the binding once per tick of a [`Clock`].
pub mod bind;
pub mod channel;
pub mod clock;
pub mod laws;

pub use bind::{Bind, BindView, State, StateWithData};
pub use channel::{Delivery, Dispatcher, MaybeSend};
pub use clock::{Clock, ContextExt};
