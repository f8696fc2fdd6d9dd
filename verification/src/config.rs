//! Configuration options for the messaging backends. The embedding
//! application reads the environment and hands the URLs in as plain
//! values; serialization of these structures also lives there.

use vstd::prelude::*;
use vstd::string::StringExecFns;

verus! {

/// Represents the configuration options for Kafka.
#[derive(Clone, Debug)]
pub struct KafkaConfig {
    pub kafka_url: String,
}

/// Represents the configuration options for NATS.
#[derive(Clone, Debug)]
pub struct NatsConfig {
    pub nats_url: String,
}

/// Represents the configuration options for RabbitMQ.
#[derive(Clone, Debug)]
pub struct RabbitMqConfig {
    pub rabbitmq_url: String,
}

/// Represents the configuration options for ZeroMQ.
#[derive(Clone, Debug)]
pub struct ZeroMqConfig {
    pub zmq_url: String,
}

/// Represents the configuration options for Redis.
#[derive(Clone, Debug)]
pub struct RedisConfig {
    pub redis_url: String,
}

/// An error that can occur during configuration.
#[derive(Clone, Debug)]
pub enum ConfigError {
    /// A required environment variable is missing.
    MissingEnvVar(String),
}

impl ConfigError {
    /// The error spelled out.
    pub fn message(&self) -> (r: String)
        ensures
            self matches ConfigError::MissingEnvVar(name) ==> r@ == "missing environment variable: "@
                + name@,
    {
        match self {
            ConfigError::MissingEnvVar(name) => {
                let mut s = String::from_str("missing environment variable: ");
                s.append(name.as_str());
                s
            },
        }
    }
}

/// Represents the general configuration options for the application.
#[derive(Clone, Debug)]
pub struct Config {
    pub kafka: Option<KafkaConfig>,
    pub nats: Option<NatsConfig>,
    pub rabbitmq: Option<RabbitMqConfig>,
    pub zeromq: Option<ZeroMqConfig>,
    pub redis: Option<RedisConfig>,
}

/// The given backend configuration wraps exactly the given URL.
pub open spec fn wraps_url<T>(cfg: Option<T>, url: Option<String>, get: spec_fn(T) -> Seq<char>)
    -> bool {
    match (cfg, url) {
        (Some(c), Some(u)) => get(c) == u@,
        (None, None) => true,
        _ => false,
    }
}

impl Config {
    /// Creates a new `Config` instance from the URLs found in the
    /// environment, each absent when its variable is unset. Every backend
    /// is optional, so construction always succeeds; the `Result` carries
    /// the error type reserved for variables that become required.
    pub fn new(
        kafka_url: Option<String>,
        nats_url: Option<String>,
        rabbitmq_url: Option<String>,
        zmq_url: Option<String>,
        redis_url: Option<String>,
    ) -> (r: Result<Self, ConfigError>)
        ensures
            r is Ok,
            wraps_url(r->Ok_0.kafka, kafka_url, |c: KafkaConfig| c.kafka_url@),
            wraps_url(r->Ok_0.nats, nats_url, |c: NatsConfig| c.nats_url@),
            wraps_url(r->Ok_0.rabbitmq, rabbitmq_url, |c: RabbitMqConfig| c.rabbitmq_url@),
            wraps_url(r->Ok_0.zeromq, zmq_url, |c: ZeroMqConfig| c.zmq_url@),
            wraps_url(r->Ok_0.redis, redis_url, |c: RedisConfig| c.redis_url@),
    {
        Ok(
            Config {
                kafka: match kafka_url {
                    Some(u) => Some(KafkaConfig { kafka_url: u }),
                    None => None,
                },
                nats: match nats_url {
                    Some(u) => Some(NatsConfig { nats_url: u }),
                    None => None,
                },
                rabbitmq: match rabbitmq_url {
                    Some(u) => Some(RabbitMqConfig { rabbitmq_url: u }),
                    None => None,
                },
                zeromq: match zmq_url {
                    Some(u) => Some(ZeroMqConfig { zmq_url: u }),
                    None => None,
                },
                redis: match redis_url {
                    Some(u) => Some(RedisConfig { redis_url: u }),
                    None => None,
                },
            },
        )
    }
}

} // verus!
