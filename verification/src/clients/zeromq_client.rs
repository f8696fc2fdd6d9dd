//! The in-process ZeroMQ client stub: it accepts every message and hands
//! back a fixed payload.

use vstd::prelude::*;
use vstd::string::StringExecFns;
use crate::clients::common::MessagingClient;

verus! {

pub struct ZeroMQClient {}

impl ZeroMQClient {
    pub fn new() -> (r: Self) {
        ZeroMQClient {  }
    }
}

impl MessagingClient for ZeroMQClient {
    fn produce(&self, topic: &str, message: &str) -> (r: Result<(), String>)
        ensures
            r is Ok,
    {
        Ok(())
    }

    fn consume(&self, topic: &str) -> (r: Result<String, String>)
        ensures
            r is Ok,
            r->Ok_0@ == "ZeroMQ message"@,
    {
        Ok(String::from_str("ZeroMQ message"))
    }
}

} // verus!
