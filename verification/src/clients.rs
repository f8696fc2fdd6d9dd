//! Messaging clients: the common capability, the factory and service, and
//! the in-process stub backend. Backends that need an outside transport
//! (such as Kafka) are built by the embedding application.

pub mod common;
pub mod zeromq_client;

pub use common::{ClientType, MessagingClient, MessagingClientFactory, MessagingService};
pub use zeromq_client::ZeroMQClient;
