//! The capability shared by all messaging clients, and the factory and
//! service that dispatch over the backends available in this crate.

use vstd::prelude::*;
use crate::clients::zeromq_client::ZeroMQClient;

verus! {

/// Trait for a messaging client.
pub trait MessagingClient {
    fn produce(&self, topic: &str, message: &str) -> Result<(), String>;

    fn consume(&self, topic: &str) -> Result<String, String>;
}

#[derive(Clone, Copy, Debug, PartialEq, Eq, Structural)]
pub enum ClientType {
    Kafka,
    Redis,
    Nats,
    RabbitMQ,
    ZeroMQ,
}

/// A messaging client of one of the backends this crate constructs
/// itself. Backends that need an outside transport are built by the
/// embedding application and do not pass through here.
pub enum MessagingClientKind {
    ZeroMQ(ZeroMQClient),
}

pub struct MessagingClientFactory;

impl MessagingClientFactory {
    /// Constructs the client for an in-process backend; `None` for the
    /// backends that need an outside transport.
    pub fn create_client(client_type: ClientType) -> (r: Option<MessagingClientKind>)
        ensures
            r is Some <==> client_type == ClientType::ZeroMQ,
            r is Some ==> r->0 is ZeroMQ,
    {
        match client_type {
            ClientType::ZeroMQ => Some(MessagingClientKind::ZeroMQ(ZeroMQClient::new())),
            _ => None,
        }
    }
}

pub struct MessagingService {
    client: MessagingClientKind,
}

impl MessagingService {
    /// A service over an in-process backend; `None` for the backends that
    /// need an outside transport.
    pub fn new(client_type: ClientType) -> (r: Option<MessagingService>)
        ensures
            r is Some <==> client_type == ClientType::ZeroMQ,
    {
        match MessagingClientFactory::create_client(client_type) {
            Some(client) => Some(MessagingService { client }),
            None => None,
        }
    }

    /// Produces a message; the in-process backends always accept it.
    pub fn produce(&self, topic: &str, message: &str) -> (r: Result<(), String>)
        ensures
            r is Ok,
    {
        match &self.client {
            MessagingClientKind::ZeroMQ(c) => c.produce(topic, message),
        }
    }

    /// Consumes a message from the backend.
    pub fn consume(&self, topic: &str) -> (r: Result<String, String>)
        ensures
            r is Ok,
            r->Ok_0@ == "ZeroMQ message"@,
    {
        match &self.client {
            MessagingClientKind::ZeroMQ(c) => c.consume(topic),
        }
    }
}

} // verus!
