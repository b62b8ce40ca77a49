//! The channel fabric: bounded, bidirectional message channels between the
//! guest and the channel-based extensions of a request.

use crate::abi::{ChannelHandle, ChannelStatus};
use std::collections::HashMap;
use vstd::prelude::*;

verus! {

/// A message sent over a channel.
pub type UwabiMessage = Vec<u8>;

/// Number of messages that each direction of a channel holds at most. It is the
/// same for every endpoint.
pub const UWABI_CHANNEL_BOUND: usize = 100;

#[verifier::external_type_specification]
#[verifier::external_body]
#[verifier::reject_recursive_types(T)]
pub struct ExSender<T>(tokio::sync::mpsc::Sender<T>);

#[verifier::external_type_specification]
#[verifier::external_body]
#[verifier::reject_recursive_types(T)]
pub struct ExReceiver<T>(tokio::sync::mpsc::Receiver<T>);

/// Why a message was not taken by a channel.
#[derive(Clone, Copy, Debug, PartialEq, Eq, Structural)]
pub enum SendFailure {
    /// The channel holds as many messages as it can.
    Full,
    /// The receiving half is closed or dropped.
    Closed,
}

/// Why no message came out of a channel.
#[derive(Clone, Copy, Debug, PartialEq, Eq, Structural)]
pub enum RecvFailure {
    /// No message is waiting, but one may still come.
    Empty,
    /// No message is waiting and no sender is left.
    Disconnected,
}

/// Whether a sending half and a receiving half belong to one queue: what goes
/// in through the one comes out of the other.
pub uninterp spec fn spec_paired(
    sender: tokio::sync::mpsc::Sender<UwabiMessage>,
    receiver: tokio::sync::mpsc::Receiver<UwabiMessage>,
) -> bool;

/// The number of messages that the queue of a sending half holds at most.
pub uninterp spec fn spec_capacity(sender: tokio::sync::mpsc::Sender<UwabiMessage>) -> nat;

/// Whether a receiving half is closed: its queue takes no further message,
/// and what it holds can still be received.
pub uninterp spec fn spec_closed(receiver: tokio::sync::mpsc::Receiver<UwabiMessage>) -> bool;

/// Whether a receiving half is still a half of every queue that it was a half
/// of.
pub open spec fn spec_same_queue(
    before: tokio::sync::mpsc::Receiver<UwabiMessage>,
    after: tokio::sync::mpsc::Receiver<UwabiMessage>,
) -> bool {
    forall|sender: tokio::sync::mpsc::Sender<UwabiMessage>|
        spec_paired(sender, before) ==> #[trigger] spec_paired(sender, after)
}

/// `tokio::sync::mpsc::channel`: the sending and the receiving half of one
/// bounded queue, which holds at most `buffer` messages. tokio panics on a
/// capacity of zero and on one above an eighth of the address space, so those
/// are left out.
#[verifier::external_body]
fn bounded_channel(buffer: usize) -> (halves: (
    tokio::sync::mpsc::Sender<UwabiMessage>,
    tokio::sync::mpsc::Receiver<UwabiMessage>,
))
    requires
        0 < buffer <= 0x1fff_ffff,
    ensures
        spec_paired(halves.0, halves.1),
        spec_capacity(halves.0) == buffer,
{
    tokio::sync::mpsc::channel(buffer)
}

/// `Sender::try_send`: hands the message to the queue without waiting. What
/// comes back depends on what the other half did, so nothing is said of it.
#[verifier::external_body]
fn try_send(sender: &tokio::sync::mpsc::Sender<UwabiMessage>, message: UwabiMessage) -> (sent:
    Result<(), SendFailure>) {
    match sender.try_send(message) {
        Ok(()) => Ok(()),
        Err(tokio::sync::mpsc::error::TrySendError::Full(_)) => Err(SendFailure::Full),
        Err(tokio::sync::mpsc::error::TrySendError::Closed(_)) => Err(SendFailure::Closed),
    }
}

/// `Receiver::try_recv`: takes the next message of the queue without waiting.
/// What comes back depends on what the other half did, so nothing is said of
/// it. The receiver stays the half of the queue that it was, and a closed one
/// stays closed.
#[verifier::external_body]
fn try_recv(receiver: &mut tokio::sync::mpsc::Receiver<UwabiMessage>) -> (received: Result<
    UwabiMessage,
    RecvFailure,
>)
    ensures
        spec_same_queue(*old(receiver), *final(receiver)),
        spec_closed(*old(receiver)) ==> spec_closed(*final(receiver)),
{
    match receiver.try_recv() {
        Ok(message) => Ok(message),
        Err(tokio::sync::mpsc::error::TryRecvError::Empty) => Err(RecvFailure::Empty),
        Err(tokio::sync::mpsc::error::TryRecvError::Disconnected) => Err(
            RecvFailure::Disconnected,
        ),
    }
}

/// `Receiver::close`: stops the queue from taking further messages, for good.
/// The receiver is closed from then on, and stays the half of the queue that
/// it was.
#[verifier::external_body]
fn close_receiver(receiver: &mut tokio::sync::mpsc::Receiver<UwabiMessage>)
    ensures
        spec_closed(*final(receiver)),
        spec_same_queue(*old(receiver), *final(receiver)),
{
    receiver.close()
}

/// The status that the guest receives for the outcome of a send.
pub open spec fn spec_send_status(outcome: Result<(), SendFailure>) -> Result<(), ChannelStatus> {
    match outcome {
        Ok(()) => Ok(()),
        Err(SendFailure::Full) => Err(ChannelStatus::ChannelFull),
        Err(SendFailure::Closed) => Err(ChannelStatus::ChannelEndpointClosed),
    }
}

/// The status that the guest receives where no message came out of a channel.
pub open spec fn spec_recv_status(failure: RecvFailure) -> ChannelStatus {
    match failure {
        RecvFailure::Empty => ChannelStatus::ChannelEmpty,
        RecvFailure::Disconnected => ChannelStatus::ChannelEndpointDisconnected,
    }
}

/// Maps the outcome of a send to the status that the guest receives: a full
/// queue gives `ChannelFull`, a closed receiver `ChannelEndpointClosed`.
pub fn send_status(outcome: Result<(), SendFailure>) -> (status: Result<(), ChannelStatus>)
    ensures
        status == spec_send_status(outcome),
{
    match outcome {
        Ok(()) => Ok(()),
        Err(SendFailure::Full) => Err(ChannelStatus::ChannelFull),
        Err(SendFailure::Closed) => Err(ChannelStatus::ChannelEndpointClosed),
    }
}

/// Maps the outcome of a receive to the message or to the status that the guest
/// receives: an empty queue gives `ChannelEmpty`, one without a sender
/// `ChannelEndpointDisconnected`.
pub fn recv_status(outcome: Result<UwabiMessage, RecvFailure>) -> (status: Result<
    UwabiMessage,
    ChannelStatus,
>)
    ensures
        match outcome {
            Ok(message) => status == Ok::<UwabiMessage, ChannelStatus>(message),
            Err(failure) => status == Err::<UwabiMessage, ChannelStatus>(spec_recv_status(failure)),
        },
{
    match outcome {
        Ok(message) => Ok(message),
        Err(RecvFailure::Empty) => Err(ChannelStatus::ChannelEmpty),
        Err(RecvFailure::Disconnected) => Err(ChannelStatus::ChannelEndpointDisconnected),
    }
}

/// One end of a bidirectional channel: the sending half of one queue and the
/// receiving half of the other.
#[derive(Debug)]
pub struct Endpoint {
    sender: tokio::sync::mpsc::Sender<UwabiMessage>,
    receiver: tokio::sync::mpsc::Receiver<UwabiMessage>,
}

/// Makes the two endpoints of a bidirectional channel out of two queues, by
/// crossing them: each endpoint sends into one queue and receives from the
/// other, so that what is sent on one endpoint is received on the other, and
/// the other way round.
///
/// ```text
///   sender ____  ____ sender
///              \/
/// receiver ____/\____ receiver
/// ```
pub fn cross_channels(
    first: (tokio::sync::mpsc::Sender<UwabiMessage>, tokio::sync::mpsc::Receiver<UwabiMessage>),
    second: (tokio::sync::mpsc::Sender<UwabiMessage>, tokio::sync::mpsc::Receiver<UwabiMessage>),
) -> (endpoints: (Endpoint, Endpoint))
    ensures
        endpoints.0.spec_sender() == first.0,
        endpoints.1.spec_receiver() == first.1,
        endpoints.1.spec_sender() == second.0,
        endpoints.0.spec_receiver() == second.1,
{
    let (tx0, rx0) = first;
    let (tx1, rx1) = second;
    let endpoint0 = Endpoint { sender: tx0, receiver: rx1 };
    let endpoint1 = Endpoint { sender: tx1, receiver: rx0 };
    (endpoint0, endpoint1)
}

/// Whether an endpoint is still the end of the channel that it was: it sends
/// through the same half, receives from the same queue, and is still closed
/// if it was.
pub open spec fn spec_same_end(before: Endpoint, after: Endpoint) -> bool {
    &&& after.spec_sender() == before.spec_sender()
    &&& spec_same_queue(before.spec_receiver(), after.spec_receiver())
    &&& spec_closed(before.spec_receiver()) ==> spec_closed(after.spec_receiver())
}

/// An endpoint that stays the end of its channel stays the peer of its peer.
pub proof fn lemma_peer_stays(peer: Endpoint, before: Endpoint, after: Endpoint)
    requires
        spec_crossed(peer, before),
        spec_same_end(before, after),
    ensures
        spec_crossed(peer, after),
{
}

/// Whether two endpoints are the two ends of one bidirectional channel: each
/// sends into the queue that the other receives from.
pub open spec fn spec_crossed(first: Endpoint, second: Endpoint) -> bool {
    &&& spec_paired(first.spec_sender(), second.spec_receiver())
    &&& spec_paired(second.spec_sender(), first.spec_receiver())
}

/// Creates a channel with two symmetrical endpoints: what is sent on one is
/// received on the other, and the other way round. Each direction holds at
/// most `UWABI_CHANNEL_BOUND` messages.
pub fn channel_create() -> (endpoints: (Endpoint, Endpoint))
    ensures
        spec_crossed(endpoints.0, endpoints.1),
        spec_capacity(endpoints.0.spec_sender()) == UWABI_CHANNEL_BOUND,
        spec_capacity(endpoints.1.spec_sender()) == UWABI_CHANNEL_BOUND,
{
    cross_channels(bounded_channel(UWABI_CHANNEL_BOUND), bounded_channel(UWABI_CHANNEL_BOUND))
}

impl Endpoint {
    /// The half through which the endpoint sends.
    pub closed spec fn spec_sender(&self) -> tokio::sync::mpsc::Sender<UwabiMessage> {
        self.sender
    }

    /// The half through which the endpoint receives.
    pub closed spec fn spec_receiver(&self) -> tokio::sync::mpsc::Receiver<UwabiMessage> {
        self.receiver
    }

    /// Sends a message to the other endpoint without waiting. Fails with
    /// `ChannelFull` or `ChannelEndpointClosed`, and with no other status.
    pub fn send(&self, message: UwabiMessage) -> (sent: Result<(), ChannelStatus>)
        ensures
            sent matches Err(status) ==> status == ChannelStatus::ChannelFull || status
                == ChannelStatus::ChannelEndpointClosed,
    {
        send_status(try_send(&self.sender, message))
    }

    /// Takes the next message from the other endpoint without waiting. Fails
    /// with `ChannelEmpty` or `ChannelEndpointDisconnected`, and with no other
    /// status. The endpoint stays the end of the channel that it was, and a
    /// closed one stays closed.
    pub fn try_recv(&mut self) -> (received: Result<UwabiMessage, ChannelStatus>)
        ensures
            received matches Err(status) ==> status == ChannelStatus::ChannelEmpty || status
                == ChannelStatus::ChannelEndpointDisconnected,
            spec_same_end(*old(self), *final(self)),
    {
        recv_status(try_recv(&mut self.receiver))
    }

    /// The receiving half, for a caller that waits for a message on it. What
    /// is done to the half through the reference is done to the half of the
    /// endpoint; the sending half stays.
    pub fn receiver_mut(&mut self) -> (receiver: &mut tokio::sync::mpsc::Receiver<UwabiMessage>)
        ensures
            *receiver == old(self).spec_receiver(),
            final(self).spec_receiver() == *final(receiver),
            final(self).spec_sender() == old(self).spec_sender(),
    {
        &mut self.receiver
    }

    /// Closes the receiving half, so that the other endpoint can send no more.
    /// The endpoint stays the end of the channel that it was, and can still
    /// send.
    pub fn close(&mut self)
        ensures
            spec_closed(final(self).spec_receiver()),
            spec_same_end(*old(self), *final(self)),
    {
        close_receiver(&mut self.receiver)
    }
}

/// Where a channel-based extension is in its life.
#[derive(Clone, Copy, Debug, PartialEq, Eq, Structural)]
pub enum BindingState {
    /// The extension is made and has no endpoint yet.
    Created,
    /// The extension holds its endpoint: the guest can exchange messages with it.
    EndpointBound,
    /// The request is over: the receiver is closed and the endpoint dropped.
    Terminated,
}

/// What a binding holds at each point of its life.
enum Stage {
    Created,
    Bound(Endpoint),
    Terminated,
}

/// The endpoint of a channel-based extension through the life of the
/// extension. An endpoint is bound once: a second one is not taken.
pub struct ChannelBinding {
    stage: Stage,
}

/// The state after an endpoint is offered to a binding: a binding without an
/// endpoint takes it, every other stays as it is.
pub open spec fn spec_after_set_endpoint(state: BindingState) -> BindingState {
    match state {
        BindingState::Created => BindingState::EndpointBound,
        BindingState::EndpointBound => BindingState::EndpointBound,
        BindingState::Terminated => BindingState::Terminated,
    }
}

impl ChannelBinding {
    /// Where the binding is in its life.
    pub closed spec fn spec_state(&self) -> BindingState {
        match self.stage {
            Stage::Created => BindingState::Created,
            Stage::Bound(_) => BindingState::EndpointBound,
            Stage::Terminated => BindingState::Terminated,
        }
    }

    /// The endpoint that the binding holds: one while it is bound, and none
    /// before and after.
    pub closed spec fn spec_endpoint(&self) -> Option<Endpoint> {
        match self.stage {
            Stage::Bound(endpoint) => Some(endpoint),
            _ => None,
        }
    }

    /// A binding holds an endpoint exactly while it is bound.
    pub proof fn lemma_bound_holds_endpoint(&self)
        ensures
            self.spec_endpoint() is Some <==> self.spec_state() == BindingState::EndpointBound,
    {
    }

    /// A binding without an endpoint.
    pub fn new() -> (binding: ChannelBinding)
        ensures
            binding.spec_state() == BindingState::Created,
            binding.spec_endpoint() is None,
    {
        ChannelBinding { stage: Stage::Created }
    }

    /// Where the binding is in its life.
    pub fn state(&self) -> (state: BindingState)
        ensures
            state == self.spec_state(),
    {
        match &self.stage {
            Stage::Created => BindingState::Created,
            Stage::Bound(_) => BindingState::EndpointBound,
            Stage::Terminated => BindingState::Terminated,
        }
    }

    /// Binds the endpoint, unless one is bound already or the binding is
    /// terminated: the endpoint is then dropped, and the binding holds what it
    /// held.
    pub fn set_endpoint(&mut self, endpoint: Endpoint)
        ensures
            final(self).spec_state() == spec_after_set_endpoint(old(self).spec_state()),
            old(self).spec_state() == BindingState::Created ==> final(self).spec_endpoint()
                == Some(endpoint),
            old(self).spec_state() != BindingState::Created ==> final(self).spec_endpoint() == old(
                self,
            ).spec_endpoint(),
    {
        let fresh = match &self.stage {
            Stage::Created => true,
            _ => false,
        };
        if fresh {
            self.stage = Stage::Bound(endpoint);
        }
    }

    /// The endpoint that the binding holds, while it is bound. What is done to
    /// the endpoint through the reference is done to the endpoint of the
    /// binding.
    pub fn get_endpoint_mut(&mut self) -> (endpoint: Option<&mut Endpoint>)
        ensures
            endpoint is Some <==> old(self).spec_state() == BindingState::EndpointBound,
            endpoint matches Some(held) ==> old(self).spec_endpoint() == Some(*held)
                && final(self).spec_endpoint() == Some(*final(held)),
            endpoint is None ==> *final(self) == *old(self),
            final(self).spec_state() == old(self).spec_state(),
    {
        match &mut self.stage {
            Stage::Bound(endpoint) => Some(endpoint),
            _ => None,
        }
    }

    /// Ends the binding: the receiver is closed, so that the guest can send no
    /// more, and the endpoint is dropped. The binding holds no endpoint from
    /// then on.
    pub fn terminate(&mut self)
        ensures
            final(self).spec_state() == BindingState::Terminated,
            final(self).spec_endpoint() is None,
    {
        let mut stage = Stage::Terminated;
        std::mem::swap(&mut self.stage, &mut stage);
        match stage {
            Stage::Bound(bound) => {
                let mut bound = bound;
                bound.close();
            },
            _ => {},
        }
    }
}

/// Maps the channel handles of a request to the host-side endpoints.
pub struct ChannelSwitchboard {
    endpoints: HashMap<i32, Endpoint>,
}

impl ChannelSwitchboard {
    /// The handles that have an endpoint.
    pub closed spec fn spec_handles(&self) -> Set<ChannelHandle> {
        Set::new(|handle: ChannelHandle| self.endpoints@.dom().contains(handle.spec_code() as i32))
    }

    /// The endpoint that is kept for a handle, where one is kept.
    pub closed spec fn spec_endpoint(&self, channel_handle: ChannelHandle) -> Endpoint {
        self.endpoints@[channel_handle.spec_code() as i32]
    }

    /// A switchboard without endpoints.
    pub fn new() -> (switchboard: ChannelSwitchboard)
        ensures
            switchboard.spec_handles() == Set::<ChannelHandle>::empty(),
    {
        let switchboard = ChannelSwitchboard { endpoints: HashMap::new() };
        assert(switchboard.spec_handles() =~= Set::<ChannelHandle>::empty());
        switchboard
    }

    /// Creates a channel for `channel_handle`, keeps one endpoint and returns
    /// the other: the two are the ends of one fresh channel, each direction of
    /// which holds at most `UWABI_CHANNEL_BOUND` messages. An endpoint kept for
    /// that handle before is dropped. The other handles keep their endpoints.
    pub fn register(&mut self, channel_handle: ChannelHandle) -> (endpoint: Endpoint)
        ensures
            final(self).spec_handles() == old(self).spec_handles().insert(channel_handle),
            spec_crossed(endpoint, final(self).spec_endpoint(channel_handle)),
            spec_capacity(endpoint.spec_sender()) == UWABI_CHANNEL_BOUND,
            spec_capacity(final(self).spec_endpoint(channel_handle).spec_sender())
                == UWABI_CHANNEL_BOUND,
            forall|other: ChannelHandle|
                other != channel_handle && old(self).spec_handles().contains(other)
                    ==> #[trigger] final(self).spec_endpoint(other) == old(self).spec_endpoint(
                    other,
                ),
    {
        let (e1, e2) = channel_create();
        self.endpoints.insert(channel_handle.code(), e2);
        proof {
            assert forall|h: ChannelHandle|
                self.spec_handles().contains(h) == old(self).spec_handles().insert(
                    channel_handle,
                ).contains(h) by {
                crate::abi::lemma_channel_handle_codes_injective(h, channel_handle);
            }
            assert(self.spec_handles() =~= old(self).spec_handles().insert(channel_handle));
            assert forall|other: ChannelHandle|
                other != channel_handle && old(self).spec_handles().contains(
                    other,
                ) implies #[trigger] self.spec_endpoint(other) == old(self).spec_endpoint(other) by {
                crate::abi::lemma_channel_handle_codes_injective(other, channel_handle);
            }
        }
        e1
    }

    /// Whether the handle has an endpoint.
    pub fn contains(&self, channel_handle: ChannelHandle) -> (found: bool)
        ensures
            found == self.spec_handles().contains(channel_handle),
    {
        let code = channel_handle.code();
        self.endpoints.contains_key(&code)
    }

    /// Sends a message on the endpoint of a handle. A handle without an
    /// endpoint gives `ChannelHandleInvalid`, and nothing else gives it.
    pub fn send(&self, channel_handle: ChannelHandle, message: UwabiMessage) -> (sent: Result<
        (),
        ChannelStatus,
    >)
        ensures
            !self.spec_handles().contains(channel_handle) <==> sent == Err::<(), ChannelStatus>(
                ChannelStatus::ChannelHandleInvalid,
            ),
            sent matches Err(status) ==> status == ChannelStatus::ChannelHandleInvalid || status
                == ChannelStatus::ChannelFull || status == ChannelStatus::ChannelEndpointClosed,
    {
        let code = channel_handle.code();
        match self.endpoints.get(&code) {
            Some(endpoint) => endpoint.send(message),
            None => Err(ChannelStatus::ChannelHandleInvalid),
        }
    }

    /// Takes the next message from the endpoint of a handle. A handle without
    /// an endpoint gives `ChannelHandleInvalid`, and nothing else gives it. The
    /// handles keep their endpoints, and every endpoint stays the end of the
    /// channel that it was.
    pub fn try_recv(&mut self, channel_handle: ChannelHandle) -> (received: Result<
        UwabiMessage,
        ChannelStatus,
    >)
        ensures
            final(self).spec_handles() == old(self).spec_handles(),
            !old(self).spec_handles().contains(channel_handle) <==> received == Err::<
                UwabiMessage,
                ChannelStatus,
            >(ChannelStatus::ChannelHandleInvalid),
            received matches Err(status) ==> status == ChannelStatus::ChannelHandleInvalid
                || status == ChannelStatus::ChannelEmpty || status
                == ChannelStatus::ChannelEndpointDisconnected,
            forall|other: ChannelHandle|
                old(self).spec_handles().contains(other) ==> spec_same_end(
                    old(self).spec_endpoint(other),
                    #[trigger] final(self).spec_endpoint(other),
                ),
    {
        let code = channel_handle.code();
        match self.endpoints.remove(&code) {
            Some(endpoint) => {
                let mut endpoint = endpoint;
                let received = endpoint.try_recv();
                self.endpoints.insert(code, endpoint);
                proof {
                    assert(self.endpoints@.dom() =~= old(self).endpoints@.dom());
                    assert(self.spec_handles() =~= old(self).spec_handles());
                    assert forall|other: ChannelHandle|
                        old(self).spec_handles().contains(other) implies spec_same_end(
                        old(self).spec_endpoint(other),
                        #[trigger] self.spec_endpoint(other),
                    ) by {
                        crate::abi::lemma_channel_handle_codes_injective(other, channel_handle);
                    }
                }
                received
            },
            None => {
                proof {
                    assert(self.endpoints@.dom() =~= old(self).endpoints@.dom());
                    assert(self.spec_handles() =~= old(self).spec_handles());
                }
                Err(ChannelStatus::ChannelHandleInvalid)
            },
        }
    }
}

} // verus!
