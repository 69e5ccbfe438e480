//! Events on the message bus: the bus handle, the user events, and how the
//! bus's failures are answered.

use vstd::prelude::*;
use crate::errors::ServiceError;
use crate::text::{copy_str, join2};

verus! {

/// A handle on the message bus that events are published through.
#[derive(Debug, Clone)]
pub struct EventBus<K> {
    kafka: K,
}

/// What happened to a user, as told on the message bus.
#[derive(Debug, Clone)]
pub enum UserEvent {
    UserCreated { user_id: String, email: String, username: String },
    UserUpdated { user_id: String, email: String },
    UserDeleted { user_id: String },
}

impl<K> EventBus<K> {
    /// The message-bus client the events go through.
    pub closed spec fn client(&self) -> K {
        self.kafka
    }

    /// A bus publishing through the given client.
    pub fn new(kafka: K) -> (b: EventBus<K>)
        ensures
            b.client() == kafka,
    {
        EventBus { kafka }
    }

    /// The client the events go through.
    pub fn kafka(&self) -> (k: &K)
        ensures
            *k == self.client(),
    {
        &self.kafka
    }
}

/// The error of an event that could not be serialized: the serializer's
/// message, as an internal error.
pub fn event_serialize_failure(message: &str) -> (e: ServiceError)
    ensures
        e matches ServiceError::Internal(m) && m@ == message@,
{
    ServiceError::Internal(copy_str(message))
}

/// The error of an event the bus refused.
pub fn event_publish_failure(message: &str) -> (e: ServiceError)
    ensures
        e matches ServiceError::Internal(m) && m@ == "Event publishing failed: "@ + message@,
{
    ServiceError::Internal(join2("Event publishing failed: ", message))
}

/// The error of a subscription the bus refused.
pub fn subscribe_failure(message: &str) -> (e: ServiceError)
    ensures
        e matches ServiceError::Internal(m) && m@ == "Subscription failed: "@ + message@,
{
    ServiceError::Internal(join2("Subscription failed: ", message))
}

} // verus!
