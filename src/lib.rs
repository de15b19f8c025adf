//! Timestamps for log lines, rendered at a fixed, manually configured UTC offset.

mod adaptor;
mod offset;
mod timestamp;

pub use adaptor::{byte_len, AdaptorError, BoundedSink, SinkError, TextSink, WriteAdaptor};
pub use offset::{
    effective_offset, hms_seconds, offset_in_range,
    offset_or_utc,
};
pub use timestamp::{
    bytes_of, described_rendering, lemma_in_range_offset_applied,
    lemma_out_of_range_offset_is_utc, lemma_timestamp_deterministic, outcome, rendered_text,
    rendering, rfc3339_rendering, write_rendered, FormatError, LocalTime, TimestampFormat,
};
