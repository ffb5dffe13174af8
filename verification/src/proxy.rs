//! Stream proxies: wrappers around a readable or writable byte
//! stream that report transferred byte counts to a progress bar as a
//! side effect of each read or write.
use vstd::prelude::*;
use std::io::Read;
use std::io::Write;

verus! {

use crate::bar::Bar;
use crate::bar::BarView;

/// Wraps a readable stream; each successful read advances the bar by
/// the number of bytes the stream returned.
pub struct Reader<T> {
    inner: T,
    bar: Bar,
}

/// Wraps a writable stream; each successful write advances the bar by
/// the number of bytes that were asked to be written.
pub struct Writer<T> {
    inner: T,
    bar: Bar,
}

impl<R: Read> Reader<R> {
    /// The bar the proxy reports to.
    pub closed spec fn spec_bar(&self) -> BarView {
        self.bar@
    }

    /// The wrapped stream.
    pub closed spec fn spec_inner(&self) -> R {
        self.inner
    }

    /// A proxy is well formed when its bar is.
    pub open spec fn wf(&self) -> bool {
        self.spec_bar().total >= 1
    }

    /// Instruments `read`: everything it yields is counted on `bar`.
    pub fn new(read: R, bar: Bar) -> (r: Reader<R>)
        ensures
            r.spec_bar() == bar@,
            r.spec_inner() == read,
    {
        Reader { inner: read, bar }
    }

    /// The bar the proxy reports to.
    pub fn bar(&self) -> (b: &Bar)
        ensures
            b@ == self.spec_bar(),
    {
        &self.bar
    }

    /// Reads from the wrapped stream into `buf`. On success the bar
    /// advances by exactly the number of bytes the stream returned,
    /// never more than `buf` holds; a stream error is handed back
    /// untouched and the counter is left where it was.
    pub fn read(&mut self, buf: &mut [u8]) -> (r: Result<usize, std::io::Error>)
        requires
            old(self).wf(),
            old(self).spec_bar().current + old(buf)@.len() <= usize::MAX,
        ensures
            final(self).wf(),
            final(buf)@.len() == old(buf)@.len(),
            final(self).spec_bar().same_config(old(self).spec_bar()),
            match r {
                Ok(n) => n <= old(buf)@.len() && final(self).spec_bar().current == old(
                    self,
                ).spec_bar().current + n,
                Err(_) => final(self).spec_bar().current == old(self).spec_bar().current,
            },
    {
        match crate::outside::read_from(&mut self.inner, buf) {
            Ok(n) => {
                self.bar.add(n);
                Ok(n)
            },
            Err(e) => Err(e),
        }
    }
}

impl<W: Write> Writer<W> {
    /// The bar the proxy reports to.
    pub closed spec fn spec_bar(&self) -> BarView {
        self.bar@
    }

    /// The wrapped stream.
    pub closed spec fn spec_inner(&self) -> W {
        self.inner
    }

    /// A proxy is well formed when its bar is.
    pub open spec fn wf(&self) -> bool {
        self.spec_bar().total >= 1
    }

    /// Instruments `write`: everything offered to it is counted on
    /// `bar`.
    pub fn new(write: W, bar: Bar) -> (r: Writer<W>)
        ensures
            r.spec_bar() == bar@,
            r.spec_inner() == write,
    {
        Writer { inner: write, bar }
    }

    /// The bar the proxy reports to.
    pub fn bar(&self) -> (b: &Bar)
        ensures
            b@ == self.spec_bar(),
    {
        &self.bar
    }

    /// Writes `buf` to the wrapped stream. On success the bar
    /// advances by the whole requested length — progress reflects
    /// bytes offered, whether or not the stream took them all — and
    /// that length is returned; a stream error is handed back
    /// untouched and the counter is left where it was.
    pub fn write(&mut self, buf: &[u8]) -> (r: Result<usize, std::io::Error>)
        requires
            old(self).wf(),
            old(self).spec_bar().current + buf@.len() <= usize::MAX,
        ensures
            final(self).wf(),
            final(self).spec_bar().same_config(old(self).spec_bar()),
            match r {
                Ok(n) => n == buf@.len() && final(self).spec_bar().current == old(
                    self,
                ).spec_bar().current + buf@.len(),
                Err(_) => final(self).spec_bar().current == old(self).spec_bar().current,
            },
    {
        match crate::outside::write_to(&mut self.inner, buf) {
            Ok(_taken) => {
                let n = buf.len();
                self.bar.add(n);
                Ok(n)
            },
            Err(e) => Err(e),
        }
    }

    /// Flushing the proxy is a no-op: the wrapped stream is not
    /// forced to flush.
    pub fn flush(&mut self) -> (r: Result<(), std::io::Error>)
        ensures
            r is Ok,
            *final(self) == *old(self),
    {
        Ok(())
    }
}

} // verus!
