//! The session registry: one slot for one live connection, and the rules of
//! its lifecycle.
//!
//! The registry never talks to a server. The embedding program makes the
//! attempt and hands in what came of it; the registry decides what that means
//! for the slot and for the caller. A program that shares one registry among
//! callers holds it behind a lock for the whole of each operation, and the
//! exclusive borrow that every changing operation takes keeps two of them from
//! running on the same registry at once.

use vstd::prelude::*;
use crate::config::{transport_settings, SqlConfig};
use crate::connection::{connection_config, is_config_of_string};
use crate::errors::SessionError;
use crate::transport::{config_pins_authority, config_settings, config_trusts_any_certificate};

verus! {

/// Why a connect attempt did not yield a connection.
#[derive(Clone, Debug, PartialEq, Eq)]
pub enum ConnectFailure {
    /// The server could not be reached.
    Transport,
    /// The server was reached and refused the session, with this text.
    Handshake(String),
}

impl ConnectFailure {
    /// The failure as the session reports it.
    pub open spec fn as_error(self) -> SessionError {
        match self {
            ConnectFailure::Transport => SessionError::TransportError,
            ConnectFailure::Handshake(text) => SessionError::HandshakeError(text),
        }
    }

    /// The failure as the session reports it.
    pub fn into_error(self) -> (error: SessionError)
        ensures
            error == self.as_error(),
    {
        match self {
            ConnectFailure::Transport => SessionError::TransportError,
            ConnectFailure::Handshake(text) => SessionError::HandshakeError(text),
        }
    }
}

/// The slot after a connect attempt, and what the caller is told. A held
/// connection is never replaced: the attempt is refused and the slot keeps
/// what it holds. An empty slot takes the connection of a successful attempt
/// and stays empty after a failed one.
pub open spec fn connect_step<H>(slot: Option<H>, attempt: Result<H, ConnectFailure>) -> (
    Option<H>,
    Result<(), SessionError>,
) {
    match slot {
        Some(_) => (slot, Err(SessionError::AlreadyConnected)),
        None => match attempt {
            Ok(handle) => (Some(handle), Ok(())),
            Err(failure) => (None, Err(failure.as_error())),
        },
    }
}

/// The slot after a disconnect, and what the caller is given: the connection
/// that was held, or the failure that none was.
pub open spec fn disconnect_step<H>(slot: Option<H>) -> (Option<H>, Result<H, SessionError>) {
    match slot {
        Some(handle) => (None, Ok(handle)),
        None => (None, Err(SessionError::NoActiveConnection)),
    }
}

/// Whether a query is admitted. The connection is asked for first, the
/// statement second: a statement that is absent or empty is missing.
pub open spec fn query_admission<H>(slot: Option<H>, statement: Option<Seq<char>>) -> Result<
    (),
    SessionError,
> {
    if slot is None {
        Err(SessionError::NoActiveConnection)
    } else if statement is None || statement->0.len() == 0 {
        Err(SessionError::MissingQuery)
    } else {
        Ok(())
    }
}

/// The registry: a slot that is empty while disconnected and holds the one
/// connection while connected.
#[derive(Debug)]
pub struct SessionRegistry<H> {
    slot: Option<H>,
}

impl<H> View for SessionRegistry<H> {
    type V = Option<H>;

    closed spec fn view(&self) -> Option<H> {
        self.slot
    }
}

impl<H> Default for SessionRegistry<H> {
    fn default() -> (registry: Self)
        ensures
            registry@ is None,
    {
        SessionRegistry::new()
    }
}

impl<H> SessionRegistry<H> {
    /// A registry that holds no connection.
    pub fn new() -> (registry: Self)
        ensures
            registry@ is None,
    {
        SessionRegistry { slot: None }
    }

    /// Whether a connection is held.
    pub fn is_connected(&self) -> (connected: bool)
        ensures
            connected == (self@ is Some),
    {
        self.slot.is_some()
    }

    /// Whether a connect attempt may be made: not while a connection is held.
    pub fn admit_connect(&self) -> (admitted: Result<(), SessionError>)
        ensures
            self@ is None ==> admitted is Ok,
            self@ is Some ==> admitted matches Err(SessionError::AlreadyConnected),
    {
        if self.slot.is_some() {
            Err(SessionError::AlreadyConnected)
        } else {
            Ok(())
        }
    }

    /// The configuration with which the caller is to make a connect attempt.
    /// None is made while a connection is held, nor with a connection string
    /// that is invalid.
    pub fn plan_connect(&self, descriptor: &SqlConfig, connection_string: Option<&str>) -> (plan:
        Result<tiberius::Config, SessionError>)
        ensures
            self@ is Some ==> plan matches Err(SessionError::AlreadyConnected),
            self@ is None && connection_string is None ==> (plan matches Ok(config)
                && config_settings(config) == transport_settings(descriptor@)
                && config_trusts_any_certificate(config) && !config_pins_authority(config)),
            self@ is None ==> (connection_string matches Some(text) ==> is_config_of_string(
                text@,
                plan,
            )),
    {
        match self.admit_connect() {
            Err(refusal) => Err(refusal),
            Ok(_) => connection_config(descriptor, connection_string),
        }
    }

    /// Takes in what came of a connect attempt.
    pub fn connect(&mut self, attempt: Result<H, ConnectFailure>) -> (told: Result<
        (),
        SessionError,
    >)
        ensures
            (final(self)@, told) == connect_step(old(self)@, attempt),
    {
        if self.slot.is_some() {
            return Err(SessionError::AlreadyConnected);
        }
        match attempt {
            Ok(handle) => {
                self.slot = Some(handle);
                Ok(())
            },
            Err(failure) => Err(failure.into_error()),
        }
    }

    /// Gives up the connection that is held.
    pub fn disconnect(&mut self) -> (given: Result<H, SessionError>)
        ensures
            (final(self)@, given) == disconnect_step(old(self)@),
    {
        match self.slot.take() {
            Some(handle) => Ok(handle),
            None => Err(SessionError::NoActiveConnection),
        }
    }

    /// Whether a query with the given statement is admitted.
    pub fn admit_query(&self, statement: Option<&str>) -> (admitted: Result<(), SessionError>)
        ensures
            admitted == query_admission(
                self@,
                match statement {
                    Some(text) => Some(text@),
                    None => None,
                },
            ),
    {
        if self.slot.is_none() {
            return Err(SessionError::NoActiveConnection);
        }
        match statement {
            None => Err(SessionError::MissingQuery),
            Some(text) => {
                if text.unicode_len() == 0 {
                    Err(SessionError::MissingQuery)
                } else {
                    Ok(())
                }
            },
        }
    }

    /// The connection that is held, for the one caller that holds the
    /// registry.
    pub fn handle_mut(&mut self) -> (handle: Option<&mut H>)
        ensures
            match old(self)@ {
                None => handle is None && final(self)@ is None,
                Some(held) => handle is Some && *handle.unwrap() == held && final(self)@ == Some(
                    *final(handle.unwrap()),
                ),
            },
    {
        self.slot.as_mut()
    }
}

/// One operation on a registry, with what the transport made of it.
pub enum Operation<H> {
    /// A connect attempt and what came of it.
    Connect(Result<H, ConnectFailure>),
    Disconnect,
    /// A query with its statement. It leaves the slot as it is.
    Query(Option<Seq<char>>),
}

/// The slot after one operation.
pub open spec fn slot_after<H>(slot: Option<H>, operation: Operation<H>) -> Option<H> {
    match operation {
        Operation::Connect(attempt) => connect_step(slot, attempt).0,
        Operation::Disconnect => disconnect_step(slot).0,
        Operation::Query(_) => slot,
    }
}

/// The slot after a run of operations, in order.
pub open spec fn slot_after_all<H>(slot: Option<H>, operations: Seq<Operation<H>>) -> Option<H>
    decreases operations.len(),
{
    if operations.len() == 0 {
        slot
    } else {
        slot_after(slot_after_all(slot, operations.drop_last()), operations.last())
    }
}

/// No operation of the run is a connect attempt that succeeded.
pub open spec fn never_connected<H>(operations: Seq<Operation<H>>) -> bool {
    forall|i: int|
        0 <= i < operations.len() ==> !((#[trigger] operations[i]) matches Operation::Connect(
            Ok(_),
        ))
}

/// A connect attempt on an empty slot fills it exactly when the attempt
/// succeeded: after a success a connection is held and the caller is told so,
/// after a failure the slot is still empty and the caller is told the failure.
pub proof fn law_connect_fills_empty_slot<H>(attempt: Result<H, ConnectFailure>)
    ensures
        attempt matches Ok(handle) ==> (connect_step(None::<H>, attempt).0 == Some(handle)
            && connect_step(None::<H>, attempt).1 is Ok),
        attempt matches Err(failure) ==> connect_step(None::<H>, attempt).0 is None,
        attempt matches Err(failure) ==> (connect_step(None::<H>, attempt).1 matches Err(told)
            && told == failure.as_error()),
{
}

/// A connect attempt on a slot that holds a connection is refused and leaves
/// the slot as it is, whatever came of the attempt.
pub proof fn law_connect_keeps_held_connection<H>(held: H, attempt: Result<H, ConnectFailure>)
    ensures
        connect_step(Some(held), attempt).0 == Some(held),
        connect_step(Some(held), attempt).1 matches Err(SessionError::AlreadyConnected),
{
}

/// After a disconnect the slot is empty, and a disconnect that follows
/// directly fails for want of a connection and leaves the slot empty.
pub proof fn law_disconnect_twice_fails<H>(slot: Option<H>)
    ensures
        disconnect_step(slot).0 is None,
        disconnect_step(disconnect_step(slot).0).0 is None,
        disconnect_step(disconnect_step(slot).0).1 matches Err(SessionError::NoActiveConnection),
{
}

/// While no connect attempt has succeeded, the slot is empty, whatever else
/// was asked of the registry.
pub proof fn law_empty_before_connect<H>(operations: Seq<Operation<H>>)
    requires
        never_connected(operations),
    ensures
        slot_after_all(None::<H>, operations) is None,
    decreases operations.len(),
{
    if operations.len() > 0 {
        let front = operations.drop_last();
        assert forall|i: int| 0 <= i < front.len() implies !((#[trigger] front[i])
            matches Operation::Connect(Ok(_))) by {
            assert(front[i] == operations[i]);
        }
        law_empty_before_connect(front);
        assert(operations.last() == operations[operations.len() - 1]);
    }
}

/// While no connect attempt has succeeded, a query fails for want of a
/// connection, whatever its statement.
pub proof fn law_query_needs_connection<H>(
    operations: Seq<Operation<H>>,
    statement: Option<Seq<char>>,
)
    requires
        never_connected(operations),
    ensures
        query_admission(slot_after_all(None::<H>, operations), statement) matches Err(
            SessionError::NoActiveConnection,
        ),
{
    law_empty_before_connect(operations);
}

/// A query without a statement, or with an empty one, fails for want of a
/// statement while a connection is held.
pub proof fn law_query_needs_statement<H>(held: H)
    ensures
        query_admission(Some(held), None) matches Err(SessionError::MissingQuery),
        query_admission(Some(held), Some(Seq::empty())) matches Err(SessionError::MissingQuery),
{
}

} // verus!
