//! The mailboxes between the registry and the channels that verify one
//! account type each.
//!
//! Every mailbox is an unbounded `crossbeam` channel: messages leave it in
//! the order they entered it, and nothing is promised between two
//! mailboxes. A channel is shared with the task at its other end, so no
//! contract here speaks of what a channel holds.

use crate::identity::OnChainIdentity;
use crate::primitives::{Address, AddressType, Challenge, NetworkAddress, PubKey, RoomId};
use crate::verification::StatusChange;
use crossbeam::channel::{Receiver, Sender, TryRecvError};
use vstd::prelude::*;

verus! {

#[verifier::external_type_specification]
#[verifier::external_body]
#[verifier::reject_recursive_types(T)]
pub struct ExSender<T>(Sender<T>);

#[verifier::external_type_specification]
#[verifier::external_body]
#[verifier::reject_recursive_types(T)]
pub struct ExReceiver<T>(Receiver<T>);

/// How long a task that found its mailbox empty waits before it looks
/// again, in milliseconds.
pub const POLL_INTERVAL_MS: u64 = 50;

/// What travels through the mailboxes.
#[derive(Debug)]
#[allow(inconsistent_fields)]
pub enum CommsMessage {
    /// A newly claimed identity, for the registry.
    NewOnChainIdentity(OnChainIdentity),
    /// A challenge to deliver, for a channel, with the session to resume
    /// where one is known.
    Inform { network_address: NetworkAddress, challenge: Challenge, room_id: Option<RoomId> },
    /// An address has proved its account, for the registry.
    ValidAccount { network_address: NetworkAddress },
    /// An address has failed to prove its account, for the registry.
    InvalidAccount { network_address: NetworkAddress },
    /// The session that a channel holds with the owner of a key, for the
    /// registry.
    TrackRoomId { pub_key: PubKey, room_id: RoomId },
    /// A question for the state of an account, for the registry.
    RequestAccountState { account: Address, account_ty: AddressType },
    /// The answer to a question about an account that nobody claims, for a
    /// channel.
    InvalidRequest,
}

impl CommsMessage {
    /// What an `Inform` message carries, and nothing for any other message.
    pub fn into_inform(self) -> (r: Option<(NetworkAddress, Challenge, Option<RoomId>)>)
        ensures
            match self {
                CommsMessage::Inform { network_address, challenge, room_id } => r == Some(
                    (network_address, challenge, room_id),
                ),
                _ => r is None,
            },
    {
        match self {
            CommsMessage::Inform { network_address, challenge, room_id } => Some(
                (network_address, challenge, room_id),
            ),
            _ => None,
        }
    }
}

/// A condition that the process does not survive: the wiring of the
/// mailboxes is fixed at startup, and a fault in it is not recovered from.
#[derive(Debug)]
pub enum Fatal {
    /// The receiving side of a mailbox is gone. The message comes back.
    Disconnected(CommsMessage),
    /// No mailbox was registered for the account type.
    NoEndpoint(AddressType),
    /// The registry was sent a message that only channels receive.
    Unrecognized,
}

/// `crossbeam::channel::unbounded`: a new channel without a bound, as its
/// sending and its receiving side.
#[verifier::external_body]
pub(crate) fn open_channel() -> (Sender<CommsMessage>, Receiver<CommsMessage>) {
    crossbeam::channel::unbounded()
}

/// `crossbeam::channel::Sender::send`. On a channel without a bound it
/// queues the message at once. It fails only when every receiver is gone,
/// and then hands the message back.
#[verifier::external_body]
pub(crate) fn send(tx: &Sender<CommsMessage>, message: CommsMessage) -> (r: Result<
    (),
    CommsMessage,
>)
    ensures
        r matches Err(back) ==> back == message,
{
    tx.send(message).map_err(|refused| refused.0)
}

/// `crossbeam::channel::Receiver::try_recv`: the oldest message in the
/// channel, or why none is handed out at this moment. It never waits.
#[verifier::external_body]
pub(crate) fn try_receive(rx: &Receiver<CommsMessage>) -> Result<CommsMessage, TryRecvError> {
    rx.try_recv()
}

/// `Clone::clone` of a `crossbeam::channel::Sender`: one more sending side
/// of the same channel.
#[verifier::external_body]
pub(crate) fn another_sender(tx: &Sender<CommsMessage>) -> Sender<CommsMessage> {
    tx.clone()
}

/// Sends a message and reports a mailbox without receiver.
fn post(tx: &Sender<CommsMessage>, message: CommsMessage) -> (r: Result<(), Fatal>)
    ensures
        r matches Err(fault) ==> fault == Fatal::Disconnected(message),
{
    // Whether a receiver still listens is known to the channel alone:
    // the answer of the channel decides, and nothing else does.
    let sent = send(tx, message);
    delivered(sent)
}

/// The registry's side of the mailbox of one account type.
pub struct CommsMain {
    sender: Sender<CommsMessage>,
}

impl CommsMain {
    /// The mailbox that sends into a given channel.
    pub closed spec fn over(sender: Sender<CommsMessage>) -> CommsMain {
        CommsMain { sender }
    }

    /// The sending side that the mailbox holds: what it sends goes into
    /// this channel and no other.
    pub closed spec fn channel(&self) -> Sender<CommsMessage> {
        self.sender
    }

    /// A mailbox is known by its channel.
    pub proof fn lemma_channel(self)
        ensures
            CommsMain::over(self.channel()) == self,
            forall|sender: Sender<CommsMessage>|
                (#[trigger] CommsMain::over(sender)).channel() == sender,
    {
    }

    pub(crate) fn new(sender: Sender<CommsMessage>) -> (res: Self)
        ensures
            res == CommsMain::over(sender),
            res.channel() == sender,
    {
        CommsMain { sender }
    }
    /// Hands a challenge to the channel.
    pub fn inform(
        &self,
        network_address: NetworkAddress,
        challenge: Challenge,
        room_id: Option<RoomId>,
    ) -> (r: Result<(), Fatal>)
        ensures
            r matches Err(fault) ==> fault == Fatal::Disconnected(
                CommsMessage::Inform { network_address, challenge, room_id },
            ),
    {
        post(&self.sender, CommsMessage::Inform { network_address, challenge, room_id })
    }

    /// Tells the channel that nobody claims the account it asked for.
    pub fn invalid_request(&self) -> (r: Result<(), Fatal>)
        ensures
            r matches Err(fault) ==> fault == Fatal::Disconnected(CommsMessage::InvalidRequest),
    {
        post(&self.sender, CommsMessage::InvalidRequest)
    }
}

/// A channel's side of its mailbox: it receives what the registry sends to
/// its account type, and sends to the registry.
pub struct CommsVerifier {
    tx: Sender<CommsMessage>,
    recv: Receiver<CommsMessage>,
    address_ty: AddressType,
    feed: Ghost<Sender<CommsMessage>>,
}

impl CommsVerifier {
    /// The account type that the endpoint was registered for.
    pub closed spec fn served(&self) -> AddressType {
        self.address_ty
    }

    /// The receiving side that the endpoint holds: what it receives comes
    /// out of this channel and no other.
    pub closed spec fn receiver(&self) -> Receiver<CommsMessage> {
        self.recv
    }

    /// The sending side that the endpoint was made together with. Where
    /// both sides were opened as one channel, what goes into it comes out
    /// at this endpoint.
    pub closed spec fn feed(&self) -> Sender<CommsMessage> {
        self.feed@
    }

    pub(crate) fn new(
        tx: Sender<CommsMessage>,
        recv: Receiver<CommsMessage>,
        address_ty: AddressType,
        feed: Ghost<Sender<CommsMessage>>,
    ) -> (res: Self)
        ensures
            res.served() == address_ty,
            res.receiver() == recv,
            res.feed() == feed@,
    {
        CommsVerifier { tx, recv, address_ty, feed }
    }

    pub fn address_ty(&self) -> (address_ty: AddressType)
        ensures
            address_ty == self.served(),
    {
        self.address_ty
    }

    /// The next message, if one is waiting. It never waits itself.
    pub fn try_recv(&self) -> Option<CommsMessage> {
        arrived(try_receive(&self.recv))
    }

    /// Asks the registry for the state of an account.
    pub fn request_account_state(&self, account: Address, account_ty: AddressType) -> (r: Result<
        (),
        Fatal,
    >)
        ensures
            r matches Err(fault) ==> fault == Fatal::Disconnected(
                CommsMessage::RequestAccountState { account, account_ty },
            ),
    {
        post(&self.tx, CommsMessage::RequestAccountState { account, account_ty })
    }

    /// Announces a newly claimed identity to the registry.
    pub fn new_on_chain_identity(&self, ident: OnChainIdentity) -> (r: Result<(), Fatal>)
        ensures
            r matches Err(fault) ==> fault == Fatal::Disconnected(
                CommsMessage::NewOnChainIdentity(ident),
            ),
    {
        post(&self.tx, CommsMessage::NewOnChainIdentity(ident))
    }

    /// Reports to the registry that an address has proved its account.
    pub fn valid_feedback(&self, network_address: NetworkAddress) -> (r: Result<(), Fatal>)
        ensures
            r matches Err(fault) ==> fault == Fatal::Disconnected(
                CommsMessage::ValidAccount { network_address },
            ),
    {
        post(&self.tx, CommsMessage::ValidAccount { network_address })
    }

    /// Reports to the registry that an address has failed to prove its
    /// account.
    pub fn invalid_feedback(&self, network_address: NetworkAddress) -> (r: Result<(), Fatal>)
        ensures
            r matches Err(fault) ==> fault == Fatal::Disconnected(
                CommsMessage::InvalidAccount { network_address },
            ),
    {
        post(&self.tx, CommsMessage::InvalidAccount { network_address })
    }

    /// Announces to the registry that a challenge has changed its status.
    pub fn notify_status_change(&self, change: &StatusChange) -> (r: Result<(), Fatal>)
        ensures
            r matches Err(fault) ==> fault == Fatal::Disconnected(change.announcement()),
    {
        post(&self.tx, change.notification())
    }

    /// Tells the registry the session held with the owner of a key.
    pub fn track_room_id(&self, pub_key: PubKey, room_id: RoomId) -> (r: Result<(), Fatal>)
        ensures
            r matches Err(fault) ==> fault == Fatal::Disconnected(
                CommsMessage::TrackRoomId { pub_key, room_id },
            ),
    {
        post(&self.tx, CommsMessage::TrackRoomId { pub_key, room_id })
    }
}

#[verifier::external_type_specification]
#[verifier::external_body]
pub struct ExTryRecvError(TryRecvError);

/// What the answer of a channel to a message comes to. A message that was
/// taken is sent. A message that came back found no receiver, which is a
/// fault that carries the message.
pub open spec fn delivery(sent: Result<(), CommsMessage>) -> Result<(), Fatal> {
    match sent {
        Ok(()) => Ok(()),
        Err(back) => Err(Fatal::Disconnected(back)),
    }
}

/// What the answer of a channel to a look into it comes to. An empty
/// channel and a channel without senders both yield nothing: a receiver
/// that finds nothing looks again later, it never fails.
pub open spec fn arrival(polled: Result<CommsMessage, TryRecvError>) -> Option<CommsMessage> {
    match polled {
        Ok(message) => Some(message),
        Err(_) => None,
    }
}

/// Turns the answer of a channel to a message into the outcome of the
/// sending.
pub fn delivered(sent: Result<(), CommsMessage>) -> (r: Result<(), Fatal>)
    ensures
        r == delivery(sent),
{
    match sent {
        Ok(()) => Ok(()),
        Err(back) => Err(Fatal::Disconnected(back)),
    }
}

/// Turns the answer of a channel to a look into it into the message that
/// arrived, if one did.
pub fn arrived(polled: Result<CommsMessage, TryRecvError>) -> (r: Option<CommsMessage>)
    ensures
        r == arrival(polled),
{
    match polled {
        Ok(message) => Some(message),
        Err(_) => None,
    }
}

} // verus!
