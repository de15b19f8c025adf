use vstd::prelude::*;
use vstd::utf8::*;
use crate::adaptor::{TextSink, WriteAdaptor};
use crate::offset::{effective_offset, offset_in_range, offset_or_utc};

verus! {

/// What `time`'s RFC 3339 rendering writes for the instant `unix_nanos`
/// (nanoseconds since the Unix epoch) shifted to `offset` seconds east of UTC;
/// `None` when the instant or the offset cannot be represented or rendered.
pub uninterp spec fn rfc3339_rendering(unix_nanos: int, offset: int) -> Option<Seq<u8>>;

/// What `time` writes for the instant `unix_nanos` shifted to `offset` seconds
/// east of UTC, through the format description `description`; `None` when the
/// description does not parse or the instant cannot be represented or rendered.
pub uninterp spec fn described_rendering(
    unix_nanos: int,
    offset: int,
    description: Seq<char>,
) -> Option<Seq<u8>>;

/// The bytes an optional buffer holds.
pub open spec fn bytes_of(o: Option<Vec<u8>>) -> Option<Seq<u8>> {
    match o {
        Some(v) => Some(v@),
        None => None,
    }
}

/// Relies on `time::OffsetDateTime::from_unix_timestamp_nanos`,
/// `UtcOffset::from_whole_seconds`, `OffsetDateTime::checked_to_offset` and
/// `OffsetDateTime::format_into` with `well_known::Rfc3339`.
#[verifier::external_body]
fn render_rfc3339(unix_nanos: i128, offset: i32) -> (r: Option<Vec<u8>>)
    ensures
        bytes_of(r) == rfc3339_rendering(unix_nanos as int, offset as int),
{
    let instant = time::OffsetDateTime::from_unix_timestamp_nanos(unix_nanos).ok()?;
    let offset = time::UtcOffset::from_whole_seconds(offset).ok()?;
    let local = instant.checked_to_offset(offset)?;
    let mut out: Vec<u8> = Vec::new();
    local.format_into(&mut out, &time::format_description::well_known::Rfc3339).ok()?;
    Some(out)
}

/// Relies on `time::format_description::parse`,
/// `time::OffsetDateTime::from_unix_timestamp_nanos`, `UtcOffset::from_whole_seconds`,
/// `OffsetDateTime::checked_to_offset` and `OffsetDateTime::format_into`.
#[verifier::external_body]
fn render_described(unix_nanos: i128, offset: i32, description: &str) -> (r: Option<Vec<u8>>)
    ensures
        bytes_of(r) == described_rendering(unix_nanos as int, offset as int, description@),
{
    let items = time::format_description::parse(description).ok()?;
    let instant = time::OffsetDateTime::from_unix_timestamp_nanos(unix_nanos).ok()?;
    let offset = time::UtcOffset::from_whole_seconds(offset).ok()?;
    let local = instant.checked_to_offset(offset)?;
    let mut out: Vec<u8> = Vec::new();
    local.format_into(&mut out, &items).ok()?;
    Some(out)
}

/// Relies on `time::OffsetDateTime::now_utc`: the current instant, in
/// nanoseconds since the Unix epoch. Nothing is known of its value.
#[verifier::external_body]
fn now_unix_nanos() -> (r: i128) {
    time::OffsetDateTime::now_utc().unix_timestamp_nanos()
}

/// Rendering a timestamp failed; the cause is not kept.
#[derive(Clone, Copy, Debug, PartialEq, Eq, Structural)]
pub struct FormatError;

/// The pattern a timestamp is rendered with.
#[derive(Clone, Debug)]
pub enum TimestampFormat {
    /// The RFC 3339 profile of ISO 8601.
    Rfc3339,
    /// A `time` format description such as `"[hour]:[minute]:[second]"`.
    Description(String),
}

/// The bytes `format` renders for `unix_nanos` at `offset` seconds east of UTC.
pub open spec fn rendering(format: TimestampFormat, unix_nanos: int, offset: int) -> Option<Seq<u8>> {
    match format {
        TimestampFormat::Rfc3339 => rfc3339_rendering(unix_nanos, offset),
        TimestampFormat::Description(d) => described_rendering(unix_nanos, offset, d@),
    }
}

/// The text a rendering stands for: `None` when there is none or it is not UTF-8.
pub open spec fn rendered_text(rendered: Option<Seq<u8>>) -> Option<Seq<char>> {
    match rendered {
        Some(b) => if valid_utf8(b) {
            Some(decode_utf8(b))
        } else {
            None
        },
        None => None,
    }
}

/// How writing `text` into a sink that stood at `before` ends: with nothing to
/// write, or when the sink refuses it, in an error and an untouched sink;
/// otherwise in success, with the text appended.
pub open spec fn outcome<W: TextSink>(text: Option<Seq<char>>, before: W, after: W, r: Result<(), FormatError>) -> bool {
    match text {
        Some(t) => if before.accepts(t) {
            r is Ok && after.text() == before.text() + t
        } else {
            r is Err && after.text() == before.text()
        },
        None => r is Err && after.text() == before.text(),
    }
}

/// Hands rendered bytes to `sink` through a [`WriteAdaptor`].
///
/// Fails, leaving the sink untouched, when there is nothing rendered, the bytes
/// are not UTF-8 or the sink refuses the text; otherwise the sink gains exactly
/// the decoded text.
pub fn write_rendered<W: TextSink>(rendered: Option<Vec<u8>>, sink: &mut W) -> (r: Result<(), FormatError>)
    ensures
        outcome(rendered_text(bytes_of(rendered)), *old(sink), *final(sink), r),
{
    let bytes = match rendered {
        Some(b) => b,
        None => return Err(FormatError),
    };
    let mut adaptor = WriteAdaptor::new(sink);
    let written = adaptor.write(bytes.as_slice());
    proof {
        assert(has_resolved(adaptor));
        adaptor.lemma_done();
    }
    match written {
        Ok(_) => Ok(()),
        Err(_) => Err(FormatError),
    }
}

/// A timestamp formatter for the current time at a fixed UTC offset.
///
/// The offset is taken as configured hours, minutes and seconds; a combination
/// that cannot form an offset is rendered as UTC rather than failing. The
/// configuration is fixed once built.
#[derive(Clone, Debug)]
pub struct LocalTime {
    format: TimestampFormat,
    tz_hours: i8,
    tz_minutes: i8,
    tz_seconds: i8,
}

impl LocalTime {
    /// The configured pattern.
    pub closed spec fn spec_format(&self) -> TimestampFormat {
        self.format
    }

    /// The configured offset as `(hours, minutes, seconds)`.
    pub closed spec fn spec_tz(&self) -> (i8, i8, i8) {
        (self.tz_hours, self.tz_minutes, self.tz_seconds)
    }

    /// The offset in force, in seconds east of UTC.
    pub open spec fn spec_offset(&self) -> int {
        effective_offset(self.spec_tz().0, self.spec_tz().1, self.spec_tz().2)
    }

    /// The text rendered for the instant `unix_nanos`, if any.
    pub open spec fn timestamp(&self, unix_nanos: int) -> Option<Seq<char>> {
        rendered_text(rendering(self.spec_format(), unix_nanos, self.spec_offset()))
    }

    /// A formatter for RFC 3339 timestamps in UTC.
    pub fn rfc_3339() -> (r: Self)
        ensures
            r.spec_format() == TimestampFormat::Rfc3339,
            r.spec_tz() == (0i8, 0i8, 0i8),
    {
        Self::new(TimestampFormat::Rfc3339)
    }

    /// A formatter with the given pattern, in UTC.
    pub fn new(format: TimestampFormat) -> (r: Self)
        ensures
            r.spec_format() == format,
            r.spec_tz() == (0i8, 0i8, 0i8),
    {
        LocalTime { format, tz_hours: 0, tz_minutes: 0, tz_seconds: 0 }
    }

    /// A formatter with the given pattern and offset `(hours, minutes, seconds)`,
    /// stored as given: e.g. `(8, 0, 0)` or `(-2, 30, 0)`.
    pub fn with_timezone(format: TimestampFormat, tz_hms: (i8, i8, i8)) -> (r: Self)
        ensures
            r.spec_format() == format,
            r.spec_tz() == tz_hms,
    {
        LocalTime { format, tz_hours: tz_hms.0, tz_minutes: tz_hms.1, tz_seconds: tz_hms.2 }
    }

    /// The configured pattern.
    pub fn format(&self) -> (r: &TimestampFormat)
        ensures
            *r == self.spec_format(),
    {
        &self.format
    }

    /// The configured offset as `(hours, minutes, seconds)`, as it was given.
    pub fn tz_hms(&self) -> (r: (i8, i8, i8))
        ensures
            r == self.spec_tz(),
    {
        (self.tz_hours, self.tz_minutes, self.tz_seconds)
    }

    /// The offset in force, in seconds east of UTC.
    pub fn offset_seconds(&self) -> (r: i32)
        ensures
            r == self.spec_offset(),
    {
        offset_or_utc(self.tz_hours, self.tz_minutes, self.tz_seconds)
    }

    /// Renders the instant `unix_nanos` (nanoseconds since the Unix epoch) at the
    /// configured offset and writes it into `sink`.
    ///
    /// Fails, leaving the sink untouched, when there is nothing to render or the
    /// sink refuses the text; otherwise the sink gains exactly the rendered text.
    pub fn format_time_at<W: TextSink>(&self, unix_nanos: i128, sink: &mut W) -> (r: Result<(), FormatError>)
        ensures
            outcome(self.timestamp(unix_nanos as int), *old(sink), *final(sink), r),
    {
        let offset = self.offset_seconds();
        let rendered = match &self.format {
            TimestampFormat::Rfc3339 => render_rfc3339(unix_nanos, offset),
            TimestampFormat::Description(d) => render_described(unix_nanos, offset, d.as_str()),
        };
        write_rendered(rendered, sink)
    }

    /// Renders the current instant at the configured offset into `sink`.
    ///
    /// The instant is read from the clock; for that instant the outcome is the
    /// one [`LocalTime::format_time_at`] gives.
    pub fn format_time<W: TextSink>(&self, sink: &mut W) -> (r: Result<(), FormatError>)
        ensures
            exists|t: i128| outcome(#[trigger] self.timestamp(t as int), *old(sink), *final(sink), r),
    {
        let now = now_unix_nanos();
        self.format_time_at(now, sink)
    }
}

impl Default for LocalTime {
    /// RFC 3339 in UTC.
    fn default() -> (r: Self)
        ensures
            r.spec_format() == TimestampFormat::Rfc3339,
            r.spec_tz() == (0i8, 0i8, 0i8),
    {
        Self::rfc_3339()
    }
}

/// An offset within range is applied exactly: the timestamp is the pattern's
/// rendering of the instant at `3600 * h + 60 * m + s` seconds east of UTC.
pub proof fn lemma_in_range_offset_applied(t: LocalTime, unix_nanos: int)
    requires
        offset_in_range(t.spec_tz().0, t.spec_tz().1, t.spec_tz().2),
    ensures
        t.timestamp(unix_nanos) == rendered_text(
            rendering(
                t.spec_format(),
                unix_nanos,
                3600 * t.spec_tz().0 + 60 * t.spec_tz().1 + t.spec_tz().2,
            ),
        ),
{
}

/// An offset out of range falls back to UTC: the timestamp equals the one a
/// formatter with the same pattern and a zero offset renders for the same instant.
pub proof fn lemma_out_of_range_offset_is_utc(t: LocalTime, utc: LocalTime, unix_nanos: int)
    requires
        !offset_in_range(t.spec_tz().0, t.spec_tz().1, t.spec_tz().2),
        utc.spec_format() == t.spec_format(),
        utc.spec_tz() == (0i8, 0i8, 0i8),
    ensures
        t.timestamp(unix_nanos) == utc.timestamp(unix_nanos),
{
}

/// Formatting is a function of the instant, the offset and the pattern alone:
/// two formatters configured alike render the same text for the same instant.
pub proof fn lemma_timestamp_deterministic(a: LocalTime, b: LocalTime, unix_nanos: int)
    requires
        a.spec_format() == b.spec_format(),
        a.spec_tz() == b.spec_tz(),
    ensures
        a.timestamp(unix_nanos) == b.timestamp(unix_nanos),
{
}

} // verus!
