//! An event-sourcing framework over a message store: stream names, messages and
//! their metadata, the store's query and write calls, handler and projection
//! routing, consumers with position tracking, and entity stores.

pub mod connection;
pub mod consumer;
pub mod entity_store;
pub mod handler;
pub mod message;
pub mod message_store;
pub mod object;
pub mod stream_name;
pub mod text;

pub use consumer::{Consumer, Recorded, Subscription};
pub use entity_store::{DuplicateProjectionError, EntityStore, Projection};
pub use handler::{DuplicateHandlerError, FunctionHandler, HandlerCollection};
pub use message::{MessageData, Metadata};
pub use message_store::{Error as MessageStoreError, Version};
pub use object::Object;
pub use stream_name::{Category, CategoryType, EntityID, StreamID, StreamName};
