use vstd::prelude::*;

use crate::encode::le_bytes;
use crate::phase::{fetch_error_bytes, fetch_url, next, ActionView, EventView, PhaseError, Stage};
use crate::response::status_succeeded;
use crate::text::utf8_text;

verus! {

/// The actions asked for when `events` are fed one by one from `stage`.
pub open spec fn trace(stage: Stage, events: Seq<EventView>) -> Seq<ActionView>
    decreases events.len(),
{
    if events.len() == 0 {
        Seq::empty()
    } else {
        let (s, a) = next(stage, events[0]);
        seq![a] + trace(s, events.drop_first())
    }
}

/// An action that ends the execution: a report on either channel, or a failure.
pub open spec fn is_terminal(a: ActionView) -> bool {
    a is ReportError || a is ReportSuccess || a is Fail
}

/// An action that reports to the host, on either channel.
pub open spec fn is_report(a: ActionView) -> bool {
    a is ReportError || a is ReportSuccess
}

proof fn lemma_trace_shape(stage: Stage, events: Seq<EventView>)
    ensures
        trace(stage, events).len() == events.len(),
        events.len() > 0 ==> trace(stage, events)[0] == next(stage, events[0]).1,
        forall|i: int|
            1 <= i < events.len() ==> #[trigger] trace(stage, events)[i] == trace(
                next(stage, events[0]).0,
                events.drop_first(),
            )[i - 1],
    decreases events.len(),
{
    if events.len() > 0 {
        lemma_trace_shape(next(stage, events[0]).0, events.drop_first());
    }
}

proof fn lemma_finished_is_quiet(events: Seq<EventView>)
    ensures
        forall|i: int| 0 <= i < events.len() ==> #[trigger] trace(Stage::Finished, events)[i]
            == ActionView::Ignore,
    decreases events.len(),
{
    lemma_trace_shape(Stage::Finished, events);
    if events.len() > 0 {
        lemma_finished_is_quiet(events.drop_first());
    }
}

proof fn lemma_no_fetch_past_input(stage: Stage, events: Seq<EventView>)
    requires
        stage != Stage::AwaitingInput,
    ensures
        forall|i: int| 0 <= i < events.len() ==> !(#[trigger] trace(stage, events)[i] is Fetch),
    decreases events.len(),
{
    lemma_trace_shape(stage, events);
    if events.len() > 0 {
        lemma_no_fetch_past_input(next(stage, events[0]).0, events.drop_first());
    }
}

/// Once an execution ends (a report on either channel, or a failure), every
/// later event is ignored: no run reports twice, or both reports and fails.
pub proof fn law_terminal_action_is_last(stage: Stage, events: Seq<EventView>)
    ensures
        forall|i: int, j: int|
            0 <= i < j < events.len() && is_terminal(#[trigger] trace(stage, events)[i])
                ==> #[trigger] trace(stage, events)[j] == ActionView::Ignore,
    decreases events.len(),
{
    lemma_trace_shape(stage, events);
    if events.len() > 0 {
        let s = next(stage, events[0]).0;
        let rest = events.drop_first();
        law_terminal_action_is_last(s, rest);
        lemma_finished_is_quiet(rest);
    }
}

/// No run asks for more than one fetch.
pub proof fn law_at_most_one_fetch(stage: Stage, events: Seq<EventView>)
    ensures
        forall|i: int, j: int|
            0 <= i < j < events.len() && #[trigger] trace(stage, events)[i] is Fetch
                ==> !(#[trigger] trace(stage, events)[j] is Fetch),
    decreases events.len(),
{
    lemma_trace_shape(stage, events);
    if events.len() > 0 {
        let s = next(stage, events[0]).0;
        let rest = events.drop_first();
        law_at_most_one_fetch(s, rest);
        if trace(stage, events)[0] is Fetch {
            lemma_no_fetch_past_input(s, rest);
        }
    }
}

/// For input that is UTF-8 text `id`, a run asks for exactly one fetch, the
/// first action, of `fetch_url(id)`.
pub proof fn law_valid_input_fetches_once(input: Seq<u8>, later: Seq<EventView>)
    requires
        utf8_text(input) is Some,
    ensures
        ({
            let t = trace(Stage::AwaitingInput, seq![EventView::Inputs(input)] + later);
            &&& t.len() == later.len() + 1
            &&& t[0] == ActionView::Fetch(fetch_url(utf8_text(input)->0))
            &&& forall|i: int| 1 <= i < t.len() ==> !(#[trigger] t[i] is Fetch)
        }),
{
    let events = seq![EventView::Inputs(input)] + later;
    assert(events.drop_first() =~= later);
    lemma_trace_shape(Stage::AwaitingInput, events);
    lemma_no_fetch_past_input(Stage::AwaitingResponse, later);
}

/// Input that is not UTF-8 fails at once: the run never fetches and never
/// reports.
pub proof fn law_invalid_input_never_fetches(input: Seq<u8>, later: Seq<EventView>)
    requires
        utf8_text(input) is None,
    ensures
        ({
            let t = trace(Stage::AwaitingInput, seq![EventView::Inputs(input)] + later);
            &&& t.len() == later.len() + 1
            &&& t[0] == ActionView::Fail(PhaseError::InputNotUtf8)
            &&& forall|i: int| 1 <= i < t.len() ==> #[trigger] t[i] == ActionView::Ignore
        }),
{
    let events = seq![EventView::Inputs(input)] + later;
    assert(events.drop_first() =~= later);
    lemma_trace_shape(Stage::AwaitingInput, events);
    lemma_finished_is_quiet(later);
}

/// A rejected fetch whose body is UTF-8 text reports the fixed error message
/// once, and nothing follows: no success report ever comes.
pub proof fn law_rejected_fetch_reports_error(
    status: u16,
    body: Seq<u8>,
    later: Seq<EventView>,
)
    requires
        !status_succeeded(status),
        utf8_text(body) is Some,
    ensures
        ({
            let t = trace(Stage::AwaitingResponse, seq![EventView::Fetched(status, body)] + later);
            &&& t.len() == later.len() + 1
            &&& t[0] == ActionView::ReportError(status, utf8_text(body)->0, fetch_error_bytes())
            &&& forall|i: int| 1 <= i < t.len() ==> #[trigger] t[i] == ActionView::Ignore
        }),
{
    let events = seq![EventView::Fetched(status, body)] + later;
    assert(events.drop_first() =~= later);
    lemma_trace_shape(Stage::AwaitingResponse, events);
    lemma_finished_is_quiet(later);
}

/// A price handed back after a successful fetch is reported once, as its 16
/// little-endian bytes, and nothing follows: no error report ever comes.
pub proof fn law_price_reports_success(v: u128, later: Seq<EventView>)
    ensures
        ({
            let t = trace(Stage::AwaitingPrice, seq![EventView::Price(Some(v))] + later);
            &&& t.len() == later.len() + 1
            &&& t[0] == ActionView::ReportSuccess(le_bytes(v))
            &&& t[0]->ReportSuccess_0.len() == 16
            &&& forall|i: int| 1 <= i < t.len() ==> #[trigger] t[i] == ActionView::Ignore
        }),
{
    let events = seq![EventView::Price(Some(v))] + later;
    assert(events.drop_first() =~= later);
    lemma_trace_shape(Stage::AwaitingPrice, events);
    lemma_finished_is_quiet(later);
}

/// A successful body that is not a numeric literal fails the run with no
/// report on either channel.
pub proof fn law_unreadable_price_fails(later: Seq<EventView>)
    ensures
        ({
            let t = trace(Stage::AwaitingPrice, seq![EventView::Price(None)] + later);
            &&& t.len() == later.len() + 1
            &&& t[0] == ActionView::Fail(PhaseError::PriceNotNumeric)
            &&& forall|i: int| 0 <= i < t.len() ==> !is_report(#[trigger] t[i])
        }),
{
    let events = seq![EventView::Price(None)] + later;
    assert(events.drop_first() =~= later);
    lemma_trace_shape(Stage::AwaitingPrice, events);
    lemma_finished_is_quiet(later);
}

} // verus!
