use vstd::prelude::*;
use vstd::slice::slice_to_vec;
use vstd::string::{StringExecFns, StringSliceAdditionalSpecFns};

use crate::encode::{encode_result, le_bytes};
use crate::response::{status_succeeded, FetchResponse};
use crate::text::{decode_utf8, utf8_text};

verus! {

/// The proxy endpoint that every feed identifier is appended to.
pub const PROXY_BASE: &'static str = "http://testnet-2.proxy.testnet.seda.xyz/proxy/";

/// The message reported to the host when the fetch was rejected.
pub const FETCH_ERROR_MESSAGE: &'static str = "Error while fetching price feed";

/// Where one execution stands.
#[derive(Clone, Copy, Debug, PartialEq, Eq, Structural)]
pub enum Stage {
    /// Waiting for the host's input bytes.
    AwaitingInput,
    /// A fetch was asked for; waiting for its response.
    AwaitingResponse,
    /// The response succeeded; waiting for its body read as a scaled price.
    AwaitingPrice,
    /// A report was made or the execution failed; nothing more happens.
    Finished,
}

/// Why an execution aborted without reporting to the host.
#[derive(Clone, Copy, Debug, PartialEq, Eq, Structural)]
pub enum PhaseError {
    /// The host's input is not UTF-8.
    InputNotUtf8,
    /// A rejected response's body is not UTF-8, so it cannot be logged.
    BodyNotUtf8,
    /// A successful response's body is not a single numeric literal.
    PriceNotNumeric,
}

/// What the outside world hands to the machine.
#[derive(Debug, PartialEq, Eq)]
pub enum Event {
    /// The host's input bytes.
    Inputs(Vec<u8>),
    /// The response to the fetch that was asked for.
    Fetched(FetchResponse),
    /// The successful body read as a price and scaled to an integer
    /// (`None` where the body is not a single numeric literal).
    Price(Option<u128>),
}

/// What the machine asks the outside world to do.
#[derive(Debug, PartialEq, Eq)]
pub enum Action {
    /// Issue one GET request to this URL, with no headers and no body.
    Fetch(String),
    /// Read these bytes as a price, scale it, and hand it back as `Event::Price`.
    ParsePrice(Vec<u8>),
    /// Log the rejected status and body, then report `message` on the
    /// host's error channel.
    ReportError { status: u16, body: String, message: Vec<u8> },
    /// Report these bytes on the host's success channel.
    ReportSuccess(Vec<u8>),
    /// Abort without any report.
    Fail(PhaseError),
    /// The event does not belong to this stage: do nothing.
    Ignore,
}

/// The mathematical content of an `Event`.
pub ghost enum EventView {
    Inputs(Seq<u8>),
    Fetched(u16, Seq<u8>),
    Price(Option<u128>),
}

/// The mathematical content of an `Action`.
pub ghost enum ActionView {
    Fetch(Seq<char>),
    ParsePrice(Seq<u8>),
    ReportError(u16, Seq<char>, Seq<u8>),
    ReportSuccess(Seq<u8>),
    Fail(PhaseError),
    Ignore,
}

impl View for Event {
    type V = EventView;

    open spec fn view(&self) -> EventView {
        match self {
            Event::Inputs(b) => EventView::Inputs(b@),
            Event::Fetched(r) => EventView::Fetched(r.status, r.bytes@),
            Event::Price(p) => EventView::Price(*p),
        }
    }
}

impl View for Action {
    type V = ActionView;

    open spec fn view(&self) -> ActionView {
        match self {
            Action::Fetch(url) => ActionView::Fetch(url@),
            Action::ParsePrice(b) => ActionView::ParsePrice(b@),
            Action::ReportError { status, body, message } => ActionView::ReportError(
                *status,
                body@,
                message@,
            ),
            Action::ReportSuccess(b) => ActionView::ReportSuccess(b@),
            Action::Fail(e) => ActionView::Fail(*e),
            Action::Ignore => ActionView::Ignore,
        }
    }
}

/// The URL fetched for feed identifier `id`.
pub open spec fn fetch_url(id: Seq<char>) -> Seq<char> {
    "http://testnet-2.proxy.testnet.seda.xyz/proxy/"@ + id
}

/// The bytes reported on the error channel when the fetch was rejected.
pub open spec fn fetch_error_bytes() -> Seq<u8> {
    "Error while fetching price feed".spec_bytes()
}

/// One transition: the next stage and the action asked for, from the current
/// stage and an event.
pub open spec fn next(stage: Stage, ev: EventView) -> (Stage, ActionView) {
    match (stage, ev) {
        (Stage::AwaitingInput, EventView::Inputs(b)) => match utf8_text(b) {
            Some(id) => (Stage::AwaitingResponse, ActionView::Fetch(fetch_url(id))),
            None => (Stage::Finished, ActionView::Fail(PhaseError::InputNotUtf8)),
        },
        (Stage::AwaitingResponse, EventView::Fetched(status, body)) => {
            if status_succeeded(status) {
                (Stage::AwaitingPrice, ActionView::ParsePrice(body))
            } else {
                match utf8_text(body) {
                    Some(t) => (
                        Stage::Finished,
                        ActionView::ReportError(status, t, fetch_error_bytes()),
                    ),
                    None => (Stage::Finished, ActionView::Fail(PhaseError::BodyNotUtf8)),
                }
            }
        },
        (Stage::AwaitingPrice, EventView::Price(p)) => match p {
            Some(v) => (Stage::Finished, ActionView::ReportSuccess(le_bytes(v))),
            None => (Stage::Finished, ActionView::Fail(PhaseError::PriceNotNumeric)),
        },
        _ => (stage, ActionView::Ignore),
    }
}

/// Builds the URL fetched for feed identifier `id`.
pub fn request_url(id: &String) -> (r: String)
    ensures
        r@ == fetch_url(id@),
{
    String::from_str(PROXY_BASE).concat(id.as_str())
}

/// The bytes reported on the error channel when the fetch was rejected.
pub fn fetch_error_message() -> (r: Vec<u8>)
    ensures
        r@ == fetch_error_bytes(),
{
    slice_to_vec(FETCH_ERROR_MESSAGE.as_bytes())
}

/// Takes one event in the given stage: returns the next stage and the action
/// that the outside world is to perform.
pub fn step(stage: Stage, event: Event) -> (r: (Stage, Action))
    ensures
        (r.0, r.1@) == next(stage, event@),
{
    match stage {
        Stage::AwaitingInput => match event {
            Event::Inputs(b) => match decode_utf8(b) {
                Some(id) => (Stage::AwaitingResponse, Action::Fetch(request_url(&id))),
                None => (Stage::Finished, Action::Fail(PhaseError::InputNotUtf8)),
            },
            _ => (stage, Action::Ignore),
        },
        Stage::AwaitingResponse => match event {
            Event::Fetched(resp) => {
                if resp.is_ok() {
                    (Stage::AwaitingPrice, Action::ParsePrice(resp.bytes))
                } else {
                    let status = resp.status;
                    match decode_utf8(resp.bytes) {
                        Some(body) => (
                            Stage::Finished,
                            Action::ReportError { status, body, message: fetch_error_message() },
                        ),
                        None => (Stage::Finished, Action::Fail(PhaseError::BodyNotUtf8)),
                    }
                }
            },
            _ => (stage, Action::Ignore),
        },
        Stage::AwaitingPrice => match event {
            Event::Price(Some(v)) => (Stage::Finished, Action::ReportSuccess(encode_result(v))),
            Event::Price(None) => (Stage::Finished, Action::Fail(PhaseError::PriceNotNumeric)),
            _ => (stage, Action::Ignore),
        },
        Stage::Finished => (stage, Action::Ignore),
    }
}

} // verus!
