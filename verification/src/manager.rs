//! The connection manager: connect and disconnect, as steps on the registry.
//!
//! Connecting takes two steps with the caller's work in between. The first
//! step retires the handle that is there and says how long to wait and what
//! to open; the caller waits, opens the transport and hands the outcome to
//! the second step, which installs the new handle or reports the failure.

use vstd::prelude::*;
use vstd::string::*;
use crate::command::{StreamCommand, ground_station_header, stream_command, stream_request_spec};
use crate::endpoint::{Endpoint, address_text, connected_text};
use crate::error::{ConnectionError, ErrorModel};
use crate::registry::{Registry, live};

verus! {

/// Milliseconds to wait after a handle was retired, so that a receive still
/// blocked on it can notice and unwind before the next handle is opened.
pub const QUIESCENCE_MS: u64 = 100;

/// What the caller does between the two steps of a connect. The first step
/// makes it and the second step takes it back.
#[derive(Clone, Debug, PartialEq, Eq)]
pub struct ConnectPlan {
    /// Milliseconds to wait before opening; zero where nothing was retired.
    pub settle_millis: u64,
    /// The address to open the transport with.
    pub address: String,
    /// The endpoint that the connect is for.
    pub endpoint: Endpoint,
}

/// What a successful connect hands back.
#[derive(Clone, Debug, PartialEq, Eq)]
pub struct Connected {
    /// The sentence for the caller, naming the port.
    pub message: String,
    /// The request to send over the new handle; a failure to send it does
    /// not undo the connect.
    pub command: StreamCommand,
}

/// One step that a caller takes on the registry.
pub enum Step<H> {
    /// The first step of a connect.
    BeginConnect,
    /// The second step of a connect, with what opening the transport gave.
    CompleteConnect(Result<H, String>),
    /// A disconnect.
    Disconnect,
}

/// What a successful disconnect reports.
pub open spec fn disconnected_text() -> Seq<char> {
    "Disconnected successfully"@
}

/// The wait that the first step of a connect prescribes.
pub open spec fn settle_time<H>(slot: Option<H>) -> u64 {
    if slot is Some {
        QUIESCENCE_MS
    } else {
        0
    }
}

/// The slot after the second step of a connect: the new handle where the
/// transport was opened, the slot as it was where it was not.
pub open spec fn slot_after_complete<H>(slot: Option<H>, opened: Result<H, String>) -> Option<H> {
    match opened {
        Ok(handle) => Some(handle),
        Err(_) => slot,
    }
}

/// What a disconnect answers on a given slot.
pub open spec fn disconnect_answer<H>(slot: Option<H>) -> Result<Seq<char>, ErrorModel> {
    if slot is Some {
        Ok(disconnected_text())
    } else {
        Err(ErrorModel::NoActiveConnection)
    }
}

/// The slot after one step.
pub open spec fn slot_after<H>(slot: Option<H>, step: Step<H>) -> Option<H> {
    match step {
        Step::BeginConnect => None,
        Step::CompleteConnect(opened) => slot_after_complete(slot, opened),
        Step::Disconnect => None,
    }
}

/// The slot after a series of steps, taken one at a time in the given order.
pub open spec fn slot_after_all<H>(slot: Option<H>, steps: Seq<Step<H>>) -> Option<H>
    decreases steps.len(),
{
    if steps.len() == 0 {
        slot
    } else {
        slot_after(slot_after_all(slot, steps.drop_last()), steps.last())
    }
}

/// An answer in words, with its text as a sequence of characters.
pub open spec fn answer_model(answer: Result<String, ConnectionError>) -> Result<
    Seq<char>,
    ErrorModel,
> {
    match answer {
        Ok(text) => Ok(text@),
        Err(error) => Err(error@),
    }
}

/// First step of a connect: retires the handle that is there, if any, and
/// plans the rest. The registry is empty afterwards.
pub fn begin_connect<H>(registry: &mut Registry<H>, endpoint: Endpoint) -> (plan: ConnectPlan)
    ensures
        final(registry)@ == slot_after(old(registry)@, Step::<H>::BeginConnect),
        final(registry)@ is None,
        plan.settle_millis == settle_time(old(registry)@),
        plan.address@ == address_text(endpoint.path@, endpoint.baud as nat),
        plan.endpoint == endpoint,
{
    let was_connected = registry.clear();
    let settle_millis: u64 = if was_connected {
        QUIESCENCE_MS
    } else {
        0
    };
    let address = endpoint.address();
    ConnectPlan { settle_millis, address, endpoint }
}

/// Second step of a connect, for the plan that the first step made. Where
/// the transport was opened, its handle is installed and the answer names
/// the port and carries the stream request.
/// Where it was not, the registry stays as it is and the detail comes back
/// as the error.
pub fn complete_connect<H>(
    registry: &mut Registry<H>,
    plan: ConnectPlan,
    opened: Result<H, String>,
) -> (outcome: Result<Connected, ConnectionError>)
    ensures
        final(registry)@ == slot_after(old(registry)@, Step::CompleteConnect(opened)),
        match opened {
            Ok(handle) => {
                &&& final(registry)@ == Some(handle)
                &&& outcome is Ok
                &&& outcome->Ok_0.message@ == connected_text(plan.endpoint.path@)
                &&& outcome->Ok_0.command.header == ground_station_header()
                &&& outcome->Ok_0.command.request == stream_request_spec()
            },
            Err(detail) => {
                &&& final(registry)@ == old(registry)@
                &&& outcome is Err
                &&& outcome->Err_0@ == ErrorModel::TransportOpenFailed(detail@)
            },
        },
{
    match opened {
        Ok(handle) => {
            registry.install(handle);
            Ok(
                Connected {
                    message: plan.endpoint.connected_message(),
                    command: stream_command(),
                },
            )
        },
        Err(detail) => Err(ConnectionError::TransportOpenFailed(detail)),
    }
}

/// Disconnect: drops the handle that is there and says so, or reports that
/// there was none. The registry is empty afterwards either way.
pub fn disconnect<H>(registry: &mut Registry<H>) -> (answer: Result<String, ConnectionError>)
    ensures
        final(registry)@ == slot_after(old(registry)@, Step::<H>::Disconnect),
        final(registry)@ is None,
        answer_model(answer) == disconnect_answer(old(registry)@),
        answer is Ok <==> old(registry)@ is Some,
{
    if registry.clear() {
        Ok(String::from_str("Disconnected successfully"))
    } else {
        Err(ConnectionError::NoActiveConnection)
    }
}

/// A disconnect on an empty registry answers that no connection is active
/// and leaves the registry empty; so does every disconnect that follows
/// another.
pub proof fn lemma_disconnect_idempotent<H>(slot: Option<H>)
    ensures
        slot is None ==> {
            &&& slot_after(slot, Step::Disconnect) is None
            &&& disconnect_answer(slot) == Err::<Seq<char>, ErrorModel>(
                ErrorModel::NoActiveConnection,
            )
        },
        disconnect_answer(slot_after(slot, Step::Disconnect)) == Err::<Seq<char>, ErrorModel>(
            ErrorModel::NoActiveConnection,
        ),
        slot_after(slot_after(slot, Step::Disconnect), Step::Disconnect) == slot_after(
            slot,
            Step::Disconnect,
        ),
{
}

/// A connect leaves exactly one live handle where its transport opens,
/// whatever was connected before: the handle that opening the address of
/// the new endpoint gave. The handle that was there is in the registry no
/// more. Where the transport does not open, the registry is left empty.
pub proof fn lemma_connect_replaces<H>(
    slot: Option<H>,
    path: Seq<char>,
    baud: nat,
    open: spec_fn(Seq<char>) -> Result<H, String>,
)
    ensures
        ({
            let opened = open(address_text(path, baud));
            let retired = slot_after(slot, Step::BeginConnect);
            let replaced = slot_after(retired, Step::CompleteConnect(opened));
            &&& retired is None
            &&& opened matches Ok(handle) ==> {
                &&& replaced == Some(handle)
                &&& live(replaced) == seq![handle]
                &&& forall|old_handle: H|
                    slot == Some(old_handle) && old_handle != handle ==> !live(
                        replaced,
                    ).contains(old_handle)
            }
            &&& opened is Err ==> replaced is None && live(replaced).len() == 0
        }),
{
    let opened = open(address_text(path, baud));
    let replaced = slot_after(slot_after(slot, Step::BeginConnect), Step::CompleteConnect(opened));
    if let Ok(handle) = opened {
        assert forall|old_handle: H|
            slot == Some(old_handle) && old_handle != handle implies !live(replaced).contains(
            old_handle,
        ) by {
            if live(replaced).contains(old_handle) {
                let i = choose|i: int|
                    0 <= i < live(replaced).len() && live(replaced)[i] == old_handle;
                assert(live(replaced)[i] == handle);
            }
        }
    }
}

/// However the steps of any number of callers follow one another, the
/// registry holds at most one live handle after each of them, and what it
/// holds is decided by the last step that touched the slot.
pub proof fn lemma_steps_keep_one_handle<H>(slot: Option<H>, steps: Seq<Step<H>>)
    ensures
        live(slot_after_all(slot, steps)).len() <= 1,
        steps.len() > 0 ==> match steps.last() {
            Step::BeginConnect => slot_after_all(slot, steps) is None,
            Step::Disconnect => slot_after_all(slot, steps) is None,
            Step::CompleteConnect(Ok(handle)) => slot_after_all(slot, steps) == Some(handle),
            Step::CompleteConnect(Err(_)) => slot_after_all(slot, steps) == slot_after_all(
                slot,
                steps.drop_last(),
            ),
        },
{
}

} // verus!
