//! The connection to the chat client that carries the presence.

use vstd::prelude::*;

verus! {

/// Seconds to wait after a failed attempt to connect before the next one.
pub const RECONNECT_DELAY_SECS: u64 = 15;

/// Whether the presence connection is believed to be up.
#[derive(Clone, Copy, Debug, PartialEq, Eq, Structural)]
pub enum ConnectionState {
    Disconnected,
    Connected,
}

/// The connection to the chat client, as far as the outcomes of the calls
/// made on it tell.  The calls themselves are the driver's: each method here
/// takes in what one of them gave and moves the state accordingly.
pub struct Discord {
    client_id: String,
    state: ConnectionState,
}

impl Discord {
    /// The application for which the presence is shown.
    pub closed spec fn client_id(&self) -> Seq<char> {
        self.client_id@
    }

    /// Whether the connection is believed to be up.
    pub closed spec fn state(&self) -> ConnectionState {
        self.state
    }

    /// A connection for the application `discord_client_id`, not yet made.
    pub fn new(discord_client_id: String) -> (discord: Discord)
        ensures
            discord.client_id() == discord_client_id@,
            discord.state() == ConnectionState::Disconnected,
    {
        Discord { client_id: discord_client_id, state: ConnectionState::Disconnected }
    }

    /// The application for which the presence is shown.
    pub fn application_id(&self) -> (id: &str)
        ensures
            id@ == self.client_id(),
    {
        self.client_id.as_str()
    }

    /// Whether the connection is believed to be up.
    pub fn is_connected(&self) -> (connected: bool)
        ensures
            connected == (self.state() == ConnectionState::Connected),
    {
        match self.state {
            ConnectionState::Connected => true,
            ConnectionState::Disconnected => false,
        }
    }

    /// Takes in the outcome of one attempt to connect.  A success leaves the
    /// connection up.  A failure leaves it down and asks for another attempt
    /// after the delay returned: there is no last attempt.
    pub fn connect(&mut self, connected: bool) -> (retry_in: Option<u64>)
        ensures
            final(self).client_id() == old(self).client_id(),
            connected ==> final(self).state() == ConnectionState::Connected && retry_in is None,
            !connected ==> final(self).state() == ConnectionState::Disconnected && retry_in
                == Some(RECONNECT_DELAY_SECS),
    {
        if connected {
            self.state = ConnectionState::Connected;
            None
        } else {
            self.state = ConnectionState::Disconnected;
            Some(RECONNECT_DELAY_SECS)
        }
    }

    /// Takes in that the connection was released, which blanks the presence:
    /// the chat client reads a lost connection as no activity.
    pub fn close(&mut self)
        ensures
            final(self).client_id() == old(self).client_id(),
            final(self).state() == ConnectionState::Disconnected,
    {
        self.state = ConnectionState::Disconnected;
    }

    /// Takes in the outcome of sending a presence over the connection.  A
    /// presence that was not delivered shows the connection to be stale: it
    /// is down from then on, and has to be made again before the presence is
    /// sent once more.
    pub fn set_activity(&mut self, delivered: bool)
        requires
            old(self).state() == ConnectionState::Connected,
        ensures
            final(self).client_id() == old(self).client_id(),
            delivered ==> final(self).state() == ConnectionState::Connected,
            !delivered ==> final(self).state() == ConnectionState::Disconnected,
    {
        if !delivered {
            self.state = ConnectionState::Disconnected;
        }
    }
}

} // verus!
