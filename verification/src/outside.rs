//! Contracts for the outside functions the library calls: terminal
//! width discovery, humanized byte sizes, the output streams, and the
//! few std operations vstd leaves unspecified.
use vstd::prelude::*;
use capsize::Capacity;
use std::io::Read;
use std::io::Write;

verus! {

/// Relies on String::push: appends exactly the given character.
pub assume_specification[ String::push ](s: &mut String, c: char)
    ensures
        final(s)@ == old(s)@.push(c),
;

/// What `capsize` renders an `i64` byte count as. The rendering
/// depends on the numeric value alone.
pub uninterp spec fn bytes_str_of(v: int) -> Seq<char>;

/// Relies on capsize::Capacity::capacity on i64: a humanized byte
/// size, a function of the numeric value alone. Below one kilobyte
/// the source renders the plain decimal value followed by `B`.
#[verifier::external_body]
pub(crate) fn humanize(v: i64) -> (r: String)
    ensures
        r@ == bytes_str_of(v as int),
        0 <= v < 1024 ==> r@ == crate::text::dec_spec(v as nat).push('B'),
{
    v.capacity()
}

/// Relies on termsize::get: the current terminal's column count, or
/// nothing when there is no terminal to ask. The answer depends on
/// the environment, so nothing is promised of it.
#[verifier::external_body]
pub(crate) fn term_cols() -> Option<u16> {
    termsize::get().map(|s| s.cols)
}

/// Relies on std::io::stdout and the write! macro: sends the text to
/// the standard output stream. A stream error is ignored: the display
/// is best-effort.
#[verifier::external_body]
pub(crate) fn emit_stdout(text: &str) {
    let _ = write!(std::io::stdout(), "{}", text);
}

/// Relies on std::io::stderr and the write! macro: sends the text to
/// the standard error stream. A stream error is ignored: the display
/// is best-effort.
#[verifier::external_body]
pub(crate) fn emit_stderr(text: &str) {
    let _ = write!(std::io::stderr(), "{}", text);
}

/// std::io::Error, opaque to the verifier: a stream failure is handed
/// back to the caller untouched.
#[verifier::external_type_specification]
#[verifier::external_body]
pub struct ExIoError(std::io::Error);

/// Relies on std::io::Read::read: a successful read reports how many
/// bytes were placed at the front of `buf`, never more than the
/// buffer holds, and a slice keeps its length.
#[verifier::external_body]
pub(crate) fn read_from<R: Read>(inner: &mut R, buf: &mut [u8]) -> (r: Result<
    usize,
    std::io::Error,
>)
    ensures
        final(buf)@.len() == old(buf)@.len(),
        r is Ok ==> r->Ok_0 <= old(buf)@.len(),
{
    inner.read(buf)
}

/// Relies on std::io::Write::write: a successful write consumed some
/// prefix of `buf`, never more than it holds.
#[verifier::external_body]
pub(crate) fn write_to<W: Write>(inner: &mut W, buf: &[u8]) -> (r: Result<usize, std::io::Error>)
    ensures
        r is Ok ==> r->Ok_0 <= buf@.len(),
{
    inner.write(buf)
}

/// A captured callback that receives rendered lines: the sink of the
/// callback reporter. It may be stateful; nothing is known of what it
/// does with a line. The struct is opaque because the verifier has no
/// representation for a stored callable.
#[verifier::external_body]
pub struct Sink {
    f: Box<dyn FnMut(String)>,
}

impl Sink {
    /// Wraps any line-consuming closure.
    #[verifier::external_body]
    pub fn new<F: FnMut(String) + 'static>(f: F) -> Sink {
        Sink { f: Box::new(f) }
    }

    /// Hands one rendered line to the wrapped callback.
    #[verifier::external_body]
    pub fn accept(&mut self, line: String) {
        (self.f)(line)
    }
}

} // verus!
