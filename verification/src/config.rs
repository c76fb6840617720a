//! The agent's configuration and what it does with the answer to its
//! registration.

use vstd::prelude::*;

verus! {

/// The agent's settings.
#[derive(Clone, Debug, PartialEq, Eq)]
pub struct ClientConfig {
    /// The address of the service.
    pub remote_url: String,
    /// The machine's identifier, once the service has given one.
    pub uuid: Option<String>,
}

/// The configuration file as a whole.
#[derive(Clone, Debug, PartialEq, Eq)]
pub struct AppConfig {
    /// The agent's settings.
    pub client: ClientConfig,
}

/// What the agent does once its registration has been answered.
#[derive(Clone, Debug, PartialEq, Eq)]
pub enum Startup {
    /// Start the periodic tasks under the identifier `uuid`. Where `persist`
    /// is set, the configuration has taken up a new identifier and is to be
    /// written back first.
    Proceed { uuid: String, persist: bool },
    /// The machine has no confirmed identity: start no task, report it, and
    /// wait without spinning.
    Halt,
}

impl AppConfig {
    /// The identifier to show when registering: the cached one, if any.
    pub fn cached_identifier(&self) -> (cached: Option<String>)
        ensures
            cached == self.client.uuid,
    {
        match &self.client.uuid {
            Some(uuid) => Some(uuid.clone()),
            None => None,
        }
    }

    /// Takes up the answer to the registration. `answer` is the identifier
    /// that the service returned, or `None` where the call failed or
    /// returned none. Without an answer nothing starts. With one, a cached
    /// identifier stays as it is, and where none was cached the returned one
    /// is taken up and is to be written back.
    pub fn on_registered(&mut self, answer: Option<String>) -> (startup: Startup)
        ensures
            final(self).client.remote_url == old(self).client.remote_url,
            match (old(self).client.uuid, answer) {
                (_, None) => startup is Halt && final(self).client.uuid == old(self).client.uuid,
                (Some(cached), Some(_)) => startup == (Startup::Proceed {
                    uuid: cached,
                    persist: false,
                }) && final(self).client.uuid == old(self).client.uuid,
                (None, Some(minted)) => startup == (Startup::Proceed {
                    uuid: minted,
                    persist: true,
                }) && final(self).client.uuid == Some(minted),
            },
    {
        match answer {
            None => Startup::Halt,
            Some(minted) => {
                match &self.client.uuid {
                    Some(cached) => Startup::Proceed { uuid: cached.clone(), persist: false },
                    None => {
                        self.client.uuid = Some(minted.clone());
                        Startup::Proceed { uuid: minted, persist: true }
                    },
                }
            },
        }
    }
}

} // verus!
