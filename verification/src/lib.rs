//! A multi-producer, single-consumer message channel.
//!
//! Many [`Sender`] handles may feed values into one shared FIFO queue;
//! the single [`Receiver`] drains them in order, blocking while the queue
//! is empty and at least one sender is still alive.  The decision logic of
//! the protocol lives in [`state::Inner`], where it is verified; the lock
//! and the condition variable that carry it across threads are isolated in
//! the `sync` module.
//!
//! The crate also carries two small companions: greeting traits built
//! around static and generic dispatch (`dispatch`), and a verified
//! longest-common-prefix computation (`prefix`).

pub mod channel;
pub mod dispatch;
pub mod prefix;
pub mod state;
pub mod sync;

pub use channel::channel;
pub use channel::Receiver;
pub use channel::Sender;
pub use dispatch::bar;
pub use dispatch::bar2;
pub use dispatch::bar3;
pub use dispatch::foo;
pub use dispatch::foo2;
pub use dispatch::foo4;
pub use dispatch::say_hello;
pub use dispatch::strlen;
pub use dispatch::strlen2;
pub use dispatch::strlen_refstr;
pub use dispatch::strlen_string;
pub use dispatch::Hello;
pub use dispatch::Hello2;
pub use prefix::longest_common_prefix;
