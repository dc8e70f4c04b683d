//! Trace identifiers of the current span, as text.

use vstd::prelude::*;
use vstd::arithmetic::power::pow;
use opentelemetry::trace::TraceContextExt;
use tracing_opentelemetry::OpenTelemetrySpanExt;
use crate::text::{digits_value, hex_digits, hex_string, lemma_hex_round_trip, is_lower_hex_digit};

verus! {

/// Number of hexadecimal digits in a rendered trace id.
pub const TRACE_ID_WIDTH: usize = 32;

/// The trace id of the span that is current on this thread, as a number.
///
/// Calls `tracing::Span::current()`, `OpenTelemetrySpanExt::context`,
/// `TraceContextExt::span`, `span_context` and `trace_id` (opentelemetry);
/// the id's 16 bytes, most significant first (`TraceId::to_bytes`), are read
/// as a `u128`. The value depends on the thread's tracing state, so nothing
/// is claimed of it.
#[verifier::external_body]
fn current_span_trace_id() -> u128 {
    u128::from_be_bytes(tracing::Span::current().context().span().span_context().trace_id().to_bytes())
}

/// Renders a trace id as 32 lowercase hexadecimal digits, zero padded, as
/// `format!("{:032x}", trace_id)` does.
pub fn format_trace_id(id: u128) -> (s: String)
    ensures
        s@ == hex_digits(id as nat, TRACE_ID_WIDTH as nat),
{
    hex_string(id, TRACE_ID_WIDTH)
}

/// The trace id of the current span as 32 lowercase hexadecimal digits.
pub fn current_trace_id() -> (s: String)
    ensures
        exists|id: u128| s@ == #[trigger] hex_digits(id as nat, TRACE_ID_WIDTH as nat),
{
    let id = current_span_trace_id();
    let s = format_trace_id(id);
    assert(s@ == hex_digits(id as nat, TRACE_ID_WIDTH as nat));
    s
}

/// Law: a rendered trace id has exactly 32 lowercase hexadecimal digits and
/// denotes the id it was rendered from, so distinct ids render differently.
pub proof fn lemma_trace_id_round_trip(id: u128)
    ensures
        hex_digits(id as nat, TRACE_ID_WIDTH as nat).len() == 32,
        forall|i: int| 0 <= i < 32 ==> is_lower_hex_digit(#[trigger] hex_digits(id as nat, 32)[i]),
        digits_value(hex_digits(id as nat, TRACE_ID_WIDTH as nat), 16) == id,
{
    lemma_hex_round_trip(id as nat, 32);
    reveal_with_fuel(pow, 33);
    assert(pow(16, 32) == 0x1_0000_0000_0000_0000_0000_0000_0000_0000int);
    vstd::arithmetic::div_mod::lemma_small_mod(id as nat, pow(16, 32) as nat);
}

} // verus!
