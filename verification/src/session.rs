//! The life of a keystore session: which operations are allowed when.
//!
//! The session records only whether the channel to the keystore is open.
//! Secrets and the channel itself stay with the program that drives it.

use vstd::prelude::*;
use lair_keystore_api::dependencies::url::Url;
use crate::call::ZomeCallUnsignedNapi;
use crate::error::KeystoreError;
use crate::importer::{base64_url_decoded, begins, Directive, SeedImport};
use crate::signer::{canonical_bytes, prepare_signing, prepared, request_view, SignRequest};

verus! {

/// Where a session stands.
#[derive(Clone, Copy, Debug, PartialEq, Eq, Structural)]
pub enum SessionState {
    /// No channel, and none being opened.
    Disconnected,
    /// The keystore has been asked for a channel and has not answered.
    Connecting,
    /// The channel is open.
    Connected,
    /// Opening the channel failed, or the open channel broke.
    Failed,
}

/// What happens to a session.
#[derive(Clone, Copy, Debug, PartialEq, Eq, Structural)]
pub enum SessionEvent {
    /// The caller asks to connect.
    ConnectRequested,
    /// The keystore accepted address and passphrase.
    ConnectSucceeded,
    /// The keystore could not be reached or refused the passphrase.
    ConnectFailed,
    /// The open channel broke.
    ChannelLost,
    /// The caller closes the session.
    DisconnectRequested,
}

/// The state that follows `state` on `event`, if the event is allowed
/// there.
pub open spec fn next_state(state: SessionState, event: SessionEvent) -> Option<SessionState> {
    match (state, event) {
        (SessionState::Disconnected, SessionEvent::ConnectRequested) => Some(
            SessionState::Connecting,
        ),
        (SessionState::Failed, SessionEvent::ConnectRequested) => Some(SessionState::Connecting),
        (SessionState::Connecting, SessionEvent::ConnectSucceeded) => Some(
            SessionState::Connected,
        ),
        (SessionState::Connecting, SessionEvent::ConnectFailed) => Some(SessionState::Failed),
        (SessionState::Connected, SessionEvent::ChannelLost) => Some(SessionState::Failed),
        (_, SessionEvent::DisconnectRequested) => Some(SessionState::Disconnected),
        _ => None,
    }
}

/// The parsed address of a keystore, as the `url` crate holds it.
#[verifier::external_type_specification]
#[verifier::external_body]
pub struct ExUrl(Url);

/// What the `url` crate objects to in an address, if anything.
pub uninterp spec fn address_error(address: Seq<char>) -> Option<Seq<char>>;

/// `Url::parse` of the `url` crate, as `lair_keystore_api` hands it on: the
/// parsed address, or the text of the parse error.
#[verifier::external_body]
fn parse_address(address: &String) -> (parsed: Result<Url, String>)
    ensures
        match parsed {
            Ok(_) => address_error(address@) is None,
            Err(cause) => address_error(address@) == Some(cause@),
        },
{
    Url::parse(address).map_err(|e| format!("{e}"))
}

/// A session with the keystore. It stands for one unlocked channel and
/// cannot be copied: a second channel takes a second session and the
/// passphrase anew.
#[derive(Debug, PartialEq, Eq, Structural)]
pub struct Session {
    state: SessionState,
}

impl View for Session {
    type V = SessionState;

    closed spec fn view(&self) -> SessionState {
        self.state
    }
}

impl Session {
    /// A session that has never been connected.
    pub fn new() -> (s: Session)
        ensures
            s@ == SessionState::Disconnected,
    {
        Session { state: SessionState::Disconnected }
    }

    /// Where the session stands.
    pub fn state(&self) -> (s: SessionState)
        ensures
            s == self@,
    {
        self.state
    }

    /// Tells whether keystore operations are allowed.
    pub fn is_connected(&self) -> (b: bool)
        ensures
            b == (self@ == SessionState::Connected),
    {
        match self.state {
            SessionState::Connected => true,
            _ => false,
        }
    }

    /// Applies an event. An event that is not allowed in the current state
    /// leaves the session as it is and is reported as `NotConnected`.
    pub fn apply(&mut self, event: SessionEvent) -> (r: Result<(), KeystoreError>)
        ensures
            match next_state(old(self)@, event) {
                Some(next) => r == Ok::<(), KeystoreError>(()) && final(self)@ == next,
                None => r == Err::<(), KeystoreError>(KeystoreError::NotConnected)
                    && final(self)@ == old(self)@,
            },
    {
        let next = match (self.state, event) {
            (SessionState::Disconnected, SessionEvent::ConnectRequested) => Some(
                SessionState::Connecting,
            ),
            (SessionState::Failed, SessionEvent::ConnectRequested) => Some(
                SessionState::Connecting,
            ),
            (SessionState::Connecting, SessionEvent::ConnectSucceeded) => Some(
                SessionState::Connected,
            ),
            (SessionState::Connecting, SessionEvent::ConnectFailed) => Some(SessionState::Failed),
            (SessionState::Connected, SessionEvent::ChannelLost) => Some(SessionState::Failed),
            (_, SessionEvent::DisconnectRequested) => Some(SessionState::Disconnected),
            _ => None,
        };
        match next {
            Some(state) => {
                self.state = state;
                Ok(())
            },
            None => Err(KeystoreError::NotConnected),
        }
    }

    /// Begins a connection attempt with the outcome of parsing the
    /// address. A session that is connecting or connected refuses; an
    /// address that did not parse fails the session with the cause;
    /// otherwise the session is connecting and the parsed address goes back
    /// to the caller, who opens the channel with it.
    pub fn begin_connect_with(&mut self, parsed: Result<Url, String>) -> (r: Result<
        Url,
        KeystoreError,
    >)
        ensures
            next_state(old(self)@, SessionEvent::ConnectRequested) is None ==> r == Err::<
                Url,
                KeystoreError,
            >(KeystoreError::NotConnected) && final(self)@ == old(self)@,
            next_state(old(self)@, SessionEvent::ConnectRequested) is Some ==> match parsed {
                Ok(url) => r matches Ok(given) && given == url && final(self)@
                    == SessionState::Connecting,
                Err(cause) => r matches Err(KeystoreError::Connection(text)) && text@ == cause@
                    && final(self)@ == SessionState::Failed,
            },
    {
        match self.state {
            SessionState::Disconnected | SessionState::Failed => match parsed {
                Ok(url) => {
                    self.state = SessionState::Connecting;
                    Ok(url)
                },
                Err(cause) => {
                    self.state = SessionState::Failed;
                    Err(KeystoreError::Connection(cause))
                },
            },
            _ => Err(KeystoreError::NotConnected),
        }
    }

    /// Begins a connection attempt to the keystore at `address`.
    pub fn begin_connect(&mut self, address: &String) -> (r: Result<Url, KeystoreError>)
        ensures
            next_state(old(self)@, SessionEvent::ConnectRequested) is None ==> r == Err::<
                Url,
                KeystoreError,
            >(KeystoreError::NotConnected) && final(self)@ == old(self)@,
            next_state(old(self)@, SessionEvent::ConnectRequested) is Some ==> match address_error(
                address@,
            ) {
                None => r is Ok && final(self)@ == SessionState::Connecting,
                Some(cause) => r matches Err(KeystoreError::Connection(text)) && text@ == cause
                    && final(self)@ == SessionState::Failed,
            },
    {
        match self.state {
            SessionState::Disconnected | SessionState::Failed => {
                let parsed = parse_address(address);
                self.begin_connect_with(parsed)
            },
            _ => Err(KeystoreError::NotConnected),
        }
    }

    /// Records the outcome of a connection attempt that was begun: the
    /// session becomes connected, or failed with the cause handed on as a
    /// connection error.
    pub fn connect_result(&mut self, outcome: Result<(), String>) -> (r: Result<
        (),
        KeystoreError,
    >)
        ensures
            old(self)@ != SessionState::Connecting ==> r == Err::<(), KeystoreError>(
                KeystoreError::NotConnected,
            ) && final(self)@ == old(self)@,
            old(self)@ == SessionState::Connecting ==> match outcome {
                Ok(_) => r == Ok::<(), KeystoreError>(()) && final(self)@
                    == SessionState::Connected,
                Err(cause) => r matches Err(KeystoreError::Connection(text)) && text@ == cause@
                    && final(self)@ == SessionState::Failed,
            },
    {
        match self.state {
            SessionState::Connecting => match outcome {
                Ok(_) => {
                    self.state = SessionState::Connected;
                    Ok(())
                },
                Err(cause) => {
                    self.state = SessionState::Failed;
                    Err(KeystoreError::Connection(cause))
                },
            },
            _ => Err(KeystoreError::NotConnected),
        }
    }

    /// Allows an operation only on a connected session.
    pub fn require_connected(&self) -> (r: Result<(), KeystoreError>)
        ensures
            r == if self@ == SessionState::Connected {
                Ok::<(), KeystoreError>(())
            } else {
                Err::<(), KeystoreError>(KeystoreError::NotConnected)
            },
    {
        if self.is_connected() {
            Ok(())
        } else {
            Err(KeystoreError::NotConnected)
        }
    }

    /// Prepares the signing request for a call, on a connected session
    /// only.
    pub fn sign_zome_call(&self, call: &ZomeCallUnsignedNapi) -> (r: Result<
        SignRequest,
        KeystoreError,
    >)
        ensures
            self@ != SessionState::Connected ==> r == Err::<SignRequest, KeystoreError>(
                KeystoreError::NotConnected,
            ),
            self@ == SessionState::Connected ==> request_view(r) == prepared(
                call@,
                canonical_bytes(call@),
            ),
    {
        match self.require_connected() {
            Err(e) => Err(e),
            Ok(()) => prepare_signing(call),
        }
    }

    /// Starts the import of a locked bundle under `tag`, on a connected
    /// session only.
    pub fn import_locked_seed_bundle(&self, locked_bundle: &String, tag: String) -> (r: Result<
        (SeedImport, Directive),
        KeystoreError,
    >)
        ensures
            match r {
                Ok(started) => self@ == SessionState::Connected && begins(
                    started.0,
                    started.1,
                    base64_url_decoded(locked_bundle@),
                    tag@,
                ),
                Err(e) => self@ != SessionState::Connected && e
                    == KeystoreError::NotConnected,
            },
    {
        match self.require_connected() {
            Err(e) => Err(e),
            Ok(()) => Ok(SeedImport::begin(locked_bundle, tag)),
        }
    }
}

/// A session goes from disconnected to connected only through connecting,
/// and no event but a successful answer to a connection attempt makes it
/// connected.
pub proof fn connected_only_after_connecting(state: SessionState, event: SessionEvent)
    requires
        next_state(state, event) == Some(SessionState::Connected),
    ensures
        state == SessionState::Connecting,
        event == SessionEvent::ConnectSucceeded,
{
}

/// Whatever the state, closing the session is allowed and leaves it
/// disconnected, and from there nothing but a connection request is
/// allowed besides closing again.
pub proof fn disconnect_always_allowed(state: SessionState, event: SessionEvent)
    ensures
        next_state(state, SessionEvent::DisconnectRequested) == Some(SessionState::Disconnected),
        next_state(SessionState::Disconnected, event) is Some ==> event
            == SessionEvent::ConnectRequested || event == SessionEvent::DisconnectRequested,
{
}

} // verus!
