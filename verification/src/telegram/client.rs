//! The client actor: the one connection to the platform, shared by every
//! module and by the dispatcher.

use vstd::prelude::*;
use std::sync::Arc;
use crate::utils::share;

pub mod commands;

verus! {

/// The client actor. It holds the connection once the login has come
/// through; `C` is the connection as the host knows it.
pub struct ClientActor<C> {
    client: Option<Arc<C>>,
}

impl<C> ClientActor<C> {
    /// The connection, if the login has come through.
    pub closed spec fn connection(self) -> Option<Arc<C>> {
        self.client
    }

    /// Tells whether the login has come through.
    pub fn is_logged_in(&self) -> (logged_in: bool)
        ensures
            logged_in == self.connection() is Some,
    {
        self.client.is_some()
    }

    /// Takes the connection that a login has given. From now on it is the one
    /// that every command goes through.
    pub fn logged_in(&mut self, client: C)
        ensures
            final(self).connection() == Some(Arc::new(client)),
    {
        self.client = Some(Arc::new(client));
    }

    /// Get the shared connection. The login must have come through before.
    pub fn get_client(&mut self) -> (client: Arc<C>)
        requires
            old(self).connection() is Some,
        ensures
            Some(client) == old(self).connection(),
            *final(self) == *old(self),
    {
        share(self.client.as_ref().unwrap())
    }
}

impl<C> Default for ClientActor<C> {
    /// An actor that has not logged in yet.
    fn default() -> (actor: Self)
        ensures
            actor.connection() is None,
    {
        ClientActor { client: None }
    }
}

} // verus!
