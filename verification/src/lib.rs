//! Event-stream runtime for a message-passing component model.
//!
//! The heart of the crate is [`EventStream`]: a message queue with an
//! advisory emission lock, a cooperative termination flag, sender-handle
//! accounting and an ordered list of observers that are notified of every
//! accepted message before the message itself is queued.  On top of it,
//! [`Update`] describes a component (a model mutated by messages) and the
//! dispatch functions drain a stream into a component while flagging slow
//! updates.

pub mod channel;
pub mod counter;
pub mod dispatch;
pub mod stream;

pub use dispatch::execute;
pub use dispatch::init_component;
pub use dispatch::DisplayVariant;
pub use dispatch::Relm;
pub use dispatch::Update;
pub use dispatch::UpdateNew;
pub use stream::EndOfStream;
pub use stream::EventStream;
pub use stream::Lock;
