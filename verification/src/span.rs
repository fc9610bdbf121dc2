//! Source positions. The position types are the ones of `source_map`; this
//! module declares them and gives contracts to the few operations used on them.

use source_map::{BaseSpan, Nullable, SourceId, Span, SpanWithSource, Start};
use vstd::prelude::*;

verus! {

/// `source_map::BaseSpan`: a start and an end offset with a source tag. Its
/// three fields are public and are read directly.
#[verifier::external_type_specification]
#[verifier::reject_recursive_types(T)]
pub struct ExBaseSpan<T: 'static>(BaseSpan<T>);

/// `source_map::SourceId`: an opaque handle for a source file.
#[verifier::external_type_specification]
#[verifier::external_body]
pub struct ExSourceId(SourceId);

/// `source_map::Start`: the offset at which something starts. Its one field
/// is public and is read directly.
#[verifier::external_type_specification]
pub struct ExStart(Start);

/// The position from `start` to `end` in the null source,
/// `<SourceId as Nullable>::NULL`.
pub uninterp spec fn in_null_source(start: u32, end: u32) -> SpanWithSource;

/// The null position, as a specification value: empty, at offset zero, in
/// the null source.
pub open spec fn null_span_value() -> SpanWithSource {
    in_null_source(0, 0)
}

/// `<SourceId as Nullable>::NULL`, as the source of a position with the given
/// offsets. The null source is one constant, so the position depends on the
/// offsets alone.
#[verifier::external_body]
pub(crate) fn null_sourced(start: u32, end: u32) -> (span: SpanWithSource)
    ensures
        span == in_null_source(start, end),
        span.start == start,
        span.end == end,
{
    BaseSpan { start, end, source: <SourceId as Nullable>::NULL }
}

/// `SpanWithSource::without_source`: the same offsets with the source dropped.
#[verifier::external_body]
pub(crate) fn without_source(span: SpanWithSource) -> (plain: Span)
    ensures
        plain.start == span.start,
        plain.end == span.end,
{
    span.without_source()
}

/// `Span::with_source`: the same offsets tagged with `source`.
#[verifier::external_body]
pub(crate) fn with_source(span: Span, source: SourceId) -> (tagged: SpanWithSource)
    ensures
        tagged.start == span.start,
        tagged.end == span.end,
        tagged.source == source,
{
    span.with_source(source)
}

/// `Span::union`: from the start of `first` to the end of `last`.
#[verifier::external_body]
pub(crate) fn span_union(first: &Span, last: &Span) -> (joined: Span)
    ensures
        joined.start == first.start,
        joined.end == last.end,
{
    first.union(last)
}

/// `Span::get_start`: the offset at which the position starts.
#[verifier::external_body]
pub(crate) fn start_of(span: &Span) -> (start: Start)
    ensures
        start.0 == span.start,
{
    span.get_start()
}

/// `Start::union`: from the offset `start` to the end of `last`.
#[verifier::external_body]
pub(crate) fn start_union(start: &Start, last: &Span) -> (joined: Span)
    ensures
        joined.start == start.0,
        joined.end == last.end,
{
    start.union(last)
}

/// The position that spans from `first` to `last`, in the source of `last`.
pub open spec fn spec_cover(first: SpanWithSource, last: SpanWithSource) -> SpanWithSource {
    BaseSpan { start: first.start, end: last.end, source: last.source }
}

/// Joins two tagged positions into one that starts where `first` starts and
/// ends where `last` ends, tagged with the source of `last`.
pub fn cover(first: SpanWithSource, last: SpanWithSource) -> (joined: SpanWithSource)
    ensures
        joined == spec_cover(first, last),
{
    let start = without_source(first);
    let end = without_source(last);
    let joined = with_source(span_union(&start, &end), last.source);
    joined
}

/// The null position: empty, at offset zero, in the null source.
pub fn null_position() -> (span: SpanWithSource)
    ensures
        span == null_span_value(),
        span.start == 0,
        span.end == 0,
{
    null_sourced(0, 0)
}

} // verus!
