//! The bookkeeping of the background service that owns the mixnet client,
//! and what it reports around its network steps. The handles it keeps (the
//! client `C`, the stream listener `L`, the chat sender `T` and the handle
//! that cancels the active session `X`) are opaque here: the service makes
//! the network calls, and these functions decide the state and the reports.
use vstd::prelude::*;

use crate::events::AppEvent;
use crate::protocol::{check_handshake, ChatHandshake, ProtocolError, HANDSHAKE_MAGIC};
use crate::worker::{info, is_info_log};

verus! {

/// What the service holds.
pub struct ServiceState<C, L, T, X> {
    /// The connected mixnet client.
    pub client: Option<C>,
    /// The listener for incoming streams, made on first use.
    pub listener: Option<L>,
    /// The client's Nym address.
    pub address: Option<String>,
    /// Where the open chat session takes outgoing messages.
    pub chat_out: Option<T>,
    /// Cancels the active session (a waiting host or a running chat).
    pub active_cancel: Option<X>,
}

/// What disconnecting leaves for the service to do: fire `cancel`, shut
/// `client` down, and report `events`.
pub struct Disconnection<C, X> {
    pub cancel: Option<X>,
    pub client: Option<C>,
    pub events: Vec<AppEvent>,
}

/// The reports of a disconnect: a log line when there was a client, then
/// `Disconnected`.
pub open spec fn disconnect_report(had_client: bool, events: Seq<AppEvent>) -> bool {
    if had_client {
        &&& events.len() == 2
        &&& is_info_log(events[0], "Disconnecting from Nym mixnet…"@)
        &&& events[1] is Disconnected
    } else {
        events.len() == 1 && events[0] is Disconnected
    }
}

/// `ev` reports connection progress `percent` with `message`.
pub open spec fn is_progress(ev: AppEvent, percent: u8, message: Seq<char>) -> bool {
    ev matches AppEvent::ConnectProgress { percent: p, message: m } && p == percent && m@
        == message
}

impl<C, L, T, X> ServiceState<C, L, T, X> {
    /// No client, no listener, no address, no session.
    pub open spec fn is_idle(&self) -> bool {
        &&& self.client is None
        &&& self.listener is None
        &&& self.address is None
        &&& self.chat_out is None
        &&& self.active_cancel is None
    }

    /// The service as it starts.
    pub fn new() -> (s: Self)
        ensures
            s.is_idle(),
    {
        ServiceState { client: None, listener: None, address: None, chat_out: None, active_cancel: None }
    }

    /// Ends the active session: the cancel handle is handed back for the
    /// caller to fire, and the chat sender is dropped.
    pub fn cancel_active(&mut self) -> (cancel: Option<X>)
        ensures
            cancel == old(self).active_cancel,
            final(self).active_cancel is None,
            final(self).chat_out is None,
            final(self).client == old(self).client,
            final(self).listener == old(self).listener,
            final(self).address == old(self).address,
    {
        let cancel = self.active_cancel.take();
        self.chat_out = None;
        cancel
    }

    /// Disconnects: the session is cancelled, the listener dropped, the
    /// client handed back to be shut down, and the address forgotten. The
    /// service is left idle; it reports a log line if there was a client,
    /// then `Disconnected`.
    pub fn disconnect(&mut self) -> (d: Disconnection<C, X>)
        ensures
            d.cancel == old(self).active_cancel,
            d.client == old(self).client,
            final(self).is_idle(),
            disconnect_report(old(self).client is Some, d.events@),
    {
        let cancel = self.cancel_active();
        self.listener = None;
        let client = self.client.take();
        self.address = None;
        let mut events: Vec<AppEvent> = Vec::new();
        if client.is_some() {
            events.push(info("Disconnecting from Nym mixnet…"));
        }
        events.push(AppEvent::Disconnected);
        Disconnection { cancel, client, events }
    }

    /// The client connected with Nym address `address`: it is kept with its
    /// address, the listener is reset, and the service reports the address,
    /// full progress, then `Connected`.
    pub fn connected(&mut self, client: C, address: String) -> (events: Vec<AppEvent>)
        ensures
            final(self).client == Some(client),
            final(self).address == Some(address),
            final(self).listener is None,
            final(self).chat_out == old(self).chat_out,
            final(self).active_cancel == old(self).active_cancel,
            events@.len() == 3,
            is_info_log(events@[0], "Connected. Nym address: "@ + address@),
            is_progress(events@[1], 100, "Connected"@),
            events@[2] matches AppEvent::Connected { address: a } && a == address,
    {
        let mut text = "Connected. Nym address: ".to_owned();
        text.append(address.as_str());
        let mut events: Vec<AppEvent> = Vec::new();
        events.push(AppEvent::Log { level: "INFO".to_owned(), message: text });
        events.push(AppEvent::ConnectProgress { percent: 100, message: "Connected".to_owned() });
        events.push(AppEvent::Connected { address: address.clone() });
        self.address = Some(address);
        self.client = Some(client);
        self.listener = None;
        events
    }

    /// The peer's chat handshake arrived. Only one that carries `SPCHAT01`
    /// opens the session: then `out` takes the outgoing messages, `cancel`
    /// ends the session, and the service logs the peer's id and reports it
    /// joined. Any other handshake is refused and nothing changes.
    pub fn open_chat(&mut self, peer: ChatHandshake, out: T, cancel: X) -> (res: Result<
        Vec<AppEvent>,
        ProtocolError,
    >)
        ensures
            peer.magic@ != HANDSHAKE_MAGIC@ ==> res == Err::<Vec<AppEvent>, _>(
                ProtocolError::InvalidHandshakeMagic,
            ) && *final(self) == *old(self),
            peer.magic@ == HANDSHAKE_MAGIC@ ==> (res matches Ok(events) && events@.len() == 2
                && is_info_log(events@[0], "Chat handshake ok with "@ + peer.sender_id@) && (
            events@[1] matches AppEvent::ChatJoined { peer: p } && p == peer.sender_id)),
            peer.magic@ == HANDSHAKE_MAGIC@ ==> final(self).chat_out == Some(out)
                && final(self).active_cancel == Some(cancel) && final(self).client == old(
                self,
            ).client && final(self).listener == old(self).listener && final(self).address == old(
                self,
            ).address,
    {
        let hs = match check_handshake(peer) {
            Ok(h) => h,
            Err(e) => return Err(e),
        };
        let mut text = "Chat handshake ok with ".to_owned();
        text.append(hs.sender_id.as_str());
        let mut events: Vec<AppEvent> = Vec::new();
        events.push(AppEvent::Log { level: "INFO".to_owned(), message: text });
        events.push(AppEvent::ChatJoined { peer: hs.sender_id });
        self.chat_out = Some(out);
        self.active_cancel = Some(cancel);
        Ok(events)
    }
}

/// The steps of connecting before the client is up.
#[derive(Debug, Clone, Copy, PartialEq, Eq, Structural)]
pub enum ConnectStage {
    /// Preparing the persistent identity.
    Preparing,
    /// Building the mixnet client.
    Building,
    /// Connecting to the gateway.
    Joining,
}

/// The progress reported as a connect step begins: 10% while preparing the
/// identity, 30% while building the client, 60% while joining the gateway.
pub fn connect_progress(stage: ConnectStage) -> (ev: AppEvent)
    ensures
        stage == ConnectStage::Preparing ==> is_progress(ev, 10, "Preparing persistent identity…"@),
        stage == ConnectStage::Building ==> is_progress(ev, 30, "Building mixnet client…"@),
        stage == ConnectStage::Joining ==> is_progress(
            ev,
            60,
            "Connecting to gateway (this may take a minute)…"@,
        ),
{
    match stage {
        ConnectStage::Preparing => AppEvent::ConnectProgress {
            percent: 10,
            message: "Preparing persistent identity…".to_owned(),
        },
        ConnectStage::Building => AppEvent::ConnectProgress {
            percent: 30,
            message: "Building mixnet client…".to_owned(),
        },
        ConnectStage::Joining => AppEvent::ConnectProgress {
            percent: 60,
            message: "Connecting to gateway (this may take a minute)…".to_owned(),
        },
    }
}

/// The report once a chat stream to `address` is open: the peer joined,
/// named by the dialled address.
pub fn dialled_event(address: String) -> (ev: AppEvent)
    ensures
        ev matches AppEvent::ChatJoined { peer } && peer == address,
{
    AppEvent::ChatJoined { peer: address }
}

} // verus!
