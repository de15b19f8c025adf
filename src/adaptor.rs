use vstd::prelude::*;
use vstd::utf8::*;

verus! {

/// A text sink refused a write.
#[derive(Clone, Copy, Debug, PartialEq, Eq, Structural)]
pub struct SinkError;

/// A destination that accepts text fragments.
pub trait TextSink {
    /// All text the sink holds.
    spec fn text(&self) -> Seq<char>;

    /// Whether the sink, as it stands, takes the fragment `s`.
    spec fn accepts(&self, s: Seq<char>) -> bool;

    /// Appends `s` when the sink accepts it; otherwise refuses and keeps its text.
    fn write_str(&mut self, s: &str) -> (r: Result<(), SinkError>)
        ensures
            r is Ok <==> old(self).accepts(s@),
            r is Ok ==> final(self).text() == old(self).text() + s@,
            r is Err ==> final(self).text() == old(self).text(),
    ;
}

impl TextSink for String {
    open spec fn text(&self) -> Seq<char> {
        self@
    }

    /// A string takes every fragment.
    open spec fn accepts(&self, s: Seq<char>) -> bool {
        true
    }

    fn write_str(&mut self, s: &str) -> (r: Result<(), SinkError>) {
        self.append(s);
        Ok(())
    }
}

/// The length in bytes of the UTF-8 encoding of `s`, as `str::len` reports it.
pub open spec fn byte_len(s: Seq<char>) -> int {
    encode_utf8(s).len() as usize as int
}

/// A text sink that holds at most `capacity` bytes of UTF-8 and refuses any
/// write that would go beyond it, keeping what it held.
#[derive(Debug)]
pub struct BoundedSink {
    pub text: String,
    pub capacity: usize,
}

impl BoundedSink {
    /// An empty sink for at most `capacity` bytes.
    pub fn new(capacity: usize) -> (r: Self)
        ensures
            r.text@ == Seq::<char>::empty(),
            r.capacity == capacity,
    {
        BoundedSink { text: String::new(), capacity }
    }

    /// The text held so far.
    pub fn as_str(&self) -> (r: &str)
        ensures
            r@ == self.text@,
    {
        self.text.as_str()
    }
}

impl TextSink for BoundedSink {
    open spec fn text(&self) -> Seq<char> {
        self.text@
    }

    /// Room is left for the bytes of `s`.
    open spec fn accepts(&self, s: Seq<char>) -> bool {
        byte_len(self.text@) + byte_len(s) <= self.capacity
    }

    fn write_str(&mut self, s: &str) -> (r: Result<(), SinkError>)
        ensures
            final(self).capacity == old(self).capacity,
    {
        let used = self.text.as_str().len();
        if used <= self.capacity && s.len() <= self.capacity - used {
            self.text.append(s);
            Ok(())
        } else {
            Err(SinkError)
        }
    }
}

/// Why a byte write through the adaptor failed.
#[derive(Clone, Copy, Debug, PartialEq, Eq, Structural)]
pub enum AdaptorError {
    /// The bytes were not valid UTF-8.
    InvalidEncoding,
    /// The wrapped text sink refused the decoded text.
    SinkWriteFailure,
}

/// Relies on `std::str::from_utf8`: `Ok` exactly for valid UTF-8, holding the decoded text.
#[verifier::external_body]
fn decode(buf: &[u8]) -> (r: Option<&str>)
    ensures
        r is Some <==> valid_utf8(buf@),
        r matches Some(s) ==> s@ == decode_utf8(buf@),
{
    std::str::from_utf8(buf).ok()
}

/// A byte sink that forwards each write, decoded as UTF-8, to a text sink.
///
/// No state is kept between writes: each write must hold complete UTF-8 sequences.
#[derive(Debug)]
pub struct WriteAdaptor<'a, W: TextSink> {
    fmt_write: &'a mut W,
}

impl<'a, W: TextSink> WriteAdaptor<'a, W> {
    /// The wrapped sink as it stands.
    pub closed spec fn sink(&self) -> W {
        *self.fmt_write
    }

    /// The borrow of the wrapped sink; its final value is what the sink holds
    /// once the adaptor is done with it.
    pub closed spec fn sink_ref(&self) -> &'a mut W {
        self.fmt_write
    }

    /// Once an adaptor is done with, its sink holds its final value.
    pub proof fn lemma_done(&self)
        requires
            has_resolved(*self),
        ensures
            self.sink() == *final(self.sink_ref()),
    {
    }

    /// An adaptor that forwards into `fmt_write` for as long as it lives.
    pub fn new(fmt_write: &'a mut W) -> (r: Self)
        ensures
            r.sink() == *old(fmt_write),
            *final(r.sink_ref()) == *final(fmt_write),
    {
        WriteAdaptor { fmt_write }
    }

    /// Decodes `buf` as UTF-8 and forwards the text to the wrapped sink.
    ///
    /// Invalid UTF-8 is refused before anything reaches the sink. On success the
    /// whole buffer counts as written.
    pub fn write(&mut self, buf: &[u8]) -> (r: Result<usize, AdaptorError>)
        ensures
            *final(final(self).sink_ref()) == *final(old(self).sink_ref()),
            ({
                let before = old(self).sink().text();
                let after = final(self).sink().text();
                if !valid_utf8(buf@) {
                    r is Err && r->Err_0 == AdaptorError::InvalidEncoding && after == before
                } else if old(self).sink().accepts(decode_utf8(buf@)) {
                    r is Ok && r->Ok_0 == buf@.len() && after == before + decode_utf8(buf@)
                } else {
                    r is Err && r->Err_0 == AdaptorError::SinkWriteFailure && after == before
                }
            }),
    {
        let s = match decode(buf) {
            Some(s) => s,
            None => return Err(AdaptorError::InvalidEncoding),
        };
        match self.fmt_write.write_str(s) {
            Ok(()) => Ok(buf.len()),
            Err(_) => Err(AdaptorError::SinkWriteFailure),
        }
    }

    /// Nothing is buffered here, so flushing always succeeds.
    pub fn flush(&mut self) -> (r: Result<(), AdaptorError>)
        ensures
            r is Ok,
            *final(final(self).sink_ref()) == *final(old(self).sink_ref()),
            final(self).sink().text() == old(self).sink().text(),
    {
        Ok(())
    }
}

} // verus!
