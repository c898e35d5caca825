//! The log writer: log lines go to the terminal while it is writing, and are
//! held back in a bounded buffer (the newest kept) while it is not, to be
//! emitted when writing resumes or peeked at meanwhile.
//!
//! Emitting is the caller's part: the operations return the lines to write.
use vstd::prelude::*;

verus! {

/// Lines held back at most.
pub const LOG_BUFFER_SIZE: usize = 255;

/// The log writer.
#[derive(Debug)]
pub struct Logger {
    buffer: Vec<Vec<u8>>,
    max_size: usize,
    writing: bool,
}

/// The bytes of held-back lines.
pub open spec fn lines_view(v: Seq<Vec<u8>>) -> Seq<Seq<u8>> {
    v.map_values(|l: Vec<u8>| l@)
}

/// The last `max` lines of `s`, or all of them.
pub open spec fn newest(s: Seq<Seq<u8>>, max: nat) -> Seq<Seq<u8>> {
    if s.len() > max { s.skip(s.len() - max) } else { s }
}

/// What `String::from_utf8_lossy` makes of bytes.
pub uninterp spec fn utf8_lossy(bytes: Seq<u8>) -> Seq<char>;

/// `String::from_utf8_lossy(..).into_owned()`: the bytes as text, invalid
/// sequences replaced by U+FFFD. Named by `utf8_lossy`; of the decoding only
/// the ASCII part is stated: ASCII bytes are their characters.
#[verifier::external_body]
fn lossy_text(bytes: &[u8]) -> (res: String)
    ensures
        res@ == utf8_lossy(bytes@),
        (forall|i: int| 0 <= i < bytes@.len() ==> #[trigger] bytes@[i] < 128)
            ==> res@ == bytes@.map_values(|b: u8| b as char),
{
    String::from_utf8_lossy(bytes).into_owned()
}

impl View for Logger {
    type V = (Seq<Seq<u8>>, nat, bool);

    closed spec fn view(&self) -> Self::V {
        (lines_view(self.buffer@), self.max_size as nat, self.writing)
    }
}

impl Logger {
    /// A logger that writes, holding back at most 255 lines.
    pub fn new() -> (res: Logger)
        ensures
            res@ == (Seq::<Seq<u8>>::empty(), LOG_BUFFER_SIZE as nat, true),
    {
        let l = Logger { buffer: Vec::new(), max_size: LOG_BUFFER_SIZE, writing: true };
        assert(lines_view(l.buffer@) =~= Seq::<Seq<u8>>::empty());
        l
    }

    /// Takes the held-back lines, oldest first, to be written out.
    pub fn flush(&mut self) -> (res: Vec<Vec<u8>>)
        ensures
            lines_view(res@) == old(self)@.0,
            final(self)@ == (Seq::<Seq<u8>>::empty(), old(self)@.1, old(self)@.2),
    {
        let mut out: Vec<Vec<u8>> = Vec::new();
        std::mem::swap(&mut out, &mut self.buffer);
        assert(lines_view(self.buffer@) =~= Seq::<Seq<u8>>::empty());
        out
    }

    /// Logs a line: it is held back (dropping the oldest beyond the limit),
    /// and, while writing, everything held back is taken to be written out.
    pub fn write(&mut self, line: Vec<u8>) -> (res: Vec<Vec<u8>>)
        ensures
            final(self)@.1 == old(self)@.1,
            final(self)@.2 == old(self)@.2,
            old(self)@.2 ==> lines_view(res@) == newest(old(self)@.0.push(line@), old(self)@.1)
                && final(self)@.0.len() == 0,
            !old(self)@.2 ==> res@.len() == 0
                && final(self)@.0 == newest(old(self)@.0.push(line@), old(self)@.1),
    {
        let ghost pushed = lines_view(self.buffer@).push(line@);
        let ghost b0 = lines_view(self.buffer@);
        self.buffer.push(line);
        assert(lines_view(self.buffer@) =~= pushed);
        assert(pushed.len() == self.buffer.len());
        let mut dropped: usize = 0;
        while self.buffer.len() > self.max_size
            invariant
                dropped <= pushed.len(),
                pushed.len() == self.buffer@.len() + dropped,
                pushed.len() <= usize::MAX,
                lines_view(self.buffer@) == pushed.skip(dropped as int),
                self.max_size == old(self).max_size,
                self.writing == old(self).writing,
                pushed.len() > old(self).max_size ==> dropped <= pushed.len() - old(self).max_size,
                pushed.len() <= old(self).max_size ==> dropped == 0,
            decreases self.buffer.len(),
        {
            let ghost v0 = lines_view(self.buffer@);
            self.buffer.remove(0);
            assert(lines_view(self.buffer@) =~= v0.drop_first());
            assert(pushed.skip(dropped as int).drop_first() =~= pushed.skip(dropped + 1));
            dropped += 1;
        }
        assert(lines_view(self.buffer@) =~= newest(pushed, self.max_size as nat));
        if self.writing {
            self.flush()
        } else {
            Vec::new()
        }
    }

    /// Starts or stops writing; on starting, the held-back lines are taken
    /// to be written out.
    pub fn set_writing(&mut self, writing: bool) -> (res: Vec<Vec<u8>>)
        ensures
            final(self)@.1 == old(self)@.1,
            final(self)@.2 == writing,
            writing ==> lines_view(res@) == old(self)@.0 && final(self)@.0.len() == 0,
            !writing ==> res@.len() == 0 && final(self)@.0 == old(self)@.0,
    {
        self.writing = writing;
        if writing {
            self.flush()
        } else {
            Vec::new()
        }
    }

    /// The newest `len` held-back lines (or all, if fewer), oldest first, as text.
    pub fn peek(&self, len: usize) -> (res: Vec<String>)
        ensures
            res@.len() == (if self@.0.len() < len { self@.0.len() } else { len as nat }),
            forall|i: int| 0 <= i < res@.len() ==> #[trigger] res@[i]@ == utf8_lossy(
                self@.0[self@.0.len() - res@.len() + i],
            ),
    {
        let n = self.buffer.len();
        let k = if n < len { n } else { len };
        let start = n - k;
        let mut out: Vec<String> = Vec::new();
        let mut i: usize = start;
        while i < n
            invariant
                n == self.buffer.len(),
                start <= i <= n,
                start == n - k,
                out@.len() == i - start,
                forall|j: int| 0 <= j < out@.len() ==> #[trigger] out@[j]@ == utf8_lossy(lines_view(self.buffer@)[start + j]),
            decreases n - i,
        {
            out.push(lossy_text(self.buffer[i].as_slice()));
            assert(lines_view(self.buffer@)[i as int] == self.buffer@[i as int]@);
            i += 1;
        }
        out
    }
}

} // verus!

verus! {

/// Severity of a log event.
#[derive(Clone, Copy, Debug, PartialEq, Eq, Structural)]
pub enum LogLevel {
    Trace,
    Debug,
    Info,
    Warn,
    Error,
}

/// The three-letter tag of a level.
pub open spec fn level_tag(l: LogLevel) -> Seq<char> {
    match l {
        LogLevel::Trace => "TRC"@,
        LogLevel::Debug => "DBG"@,
        LogLevel::Info => "INF"@,
        LogLevel::Warn => "WRN"@,
        LogLevel::Error => "ERR"@,
    }
}

/// The three-letter tag a log line shows for a level.
pub fn get_level_string(level: LogLevel) -> (res: &'static str)
    ensures
        res@ == level_tag(level),
{
    match level {
        LogLevel::Trace => "TRC",
        LogLevel::Debug => "DBG",
        LogLevel::Info => "INF",
        LogLevel::Warn => "WRN",
        LogLevel::Error => "ERR",
    }
}

/// The level events are shown at: everything when verbose, debugging when
/// asked, information otherwise.
pub fn log_level(verbose: bool, debug: bool) -> (res: LogLevel)
    ensures
        res == if verbose { LogLevel::Trace } else if debug { LogLevel::Debug } else { LogLevel::Info },
{
    if verbose {
        LogLevel::Trace
    } else if debug {
        LogLevel::Debug
    } else {
        LogLevel::Info
    }
}

} // verus!
