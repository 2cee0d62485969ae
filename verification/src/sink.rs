//! The two-operation stream capability the logger writes through: a sink
//! accepts whole pre-formatted lines (`write_all`) and pushes its buffer out
//! (`flush`). The console sinks buffer the process stdout / stderr streams;
//! the memory sink stands in for a console stream where the emitted text
//! must be observed, as the tests do.

use vstd::prelude::*;

verus! {

#[verifier::external_type_specification]
#[verifier::external_body]
pub struct ExIoError(std::io::Error);

#[verifier::external_type_specification]
#[verifier::external_body]
pub struct ExStdout(std::io::Stdout);

#[verifier::external_type_specification]
#[verifier::external_body]
pub struct ExStderr(std::io::Stderr);

/// A write or flush failed on a stream; carries the underlying
/// operating-system error.
#[derive(Debug)]
pub struct LogError {
    pub inner: std::io::Error,
}

/// Relies on std::io::stdout: obtains a handle to the process stdout stream.
#[verifier::external_body]
fn stdout_handle() -> std::io::Stdout {
    std::io::stdout()
}

/// Relies on std::io::stderr: obtains a handle to the process stderr stream.
#[verifier::external_body]
fn stderr_handle() -> std::io::Stderr {
    std::io::stderr()
}

/// Exclusively owns a buffered writer over the stdout handle. The buffered
/// writer's type takes its writer as a trait-bounded parameter, which keeps
/// it from being declared directly, so it lives opaquely in here.
#[verifier::external_body]
struct StdoutWriter {
    inner: std::io::BufWriter<std::io::Stdout>,
}

/// Exclusively owns a buffered writer over the stderr handle; see
/// `StdoutWriter`.
#[verifier::external_body]
struct StderrWriter {
    inner: std::io::BufWriter<std::io::Stderr>,
}

impl StdoutWriter {
    /// Relies on std::io::BufWriter::new: wraps the stdout handle in a
    /// buffered writer that owns it.
    #[verifier::external_body]
    fn new(handle: std::io::Stdout) -> StdoutWriter {
        StdoutWriter { inner: std::io::BufWriter::new(handle) }
    }

    /// Relies on std::io::Write::write_all: on `Ok` every byte of `text`
    /// was accepted by the buffered writer (short writes are retried
    /// internally); on `Err` the underlying error is returned.
    #[verifier::external_body]
    fn write_all(&mut self, text: &str) -> Result<(), std::io::Error> {
        std::io::Write::write_all(&mut self.inner, text.as_bytes())
    }

    /// Relies on std::io::Write::flush: on `Ok` the writer's buffer was
    /// written out to the stdout stream.
    #[verifier::external_body]
    fn flush(&mut self) -> Result<(), std::io::Error> {
        std::io::Write::flush(&mut self.inner)
    }
}

impl StderrWriter {
    /// Relies on std::io::BufWriter::new: wraps the stderr handle in a
    /// buffered writer that owns it.
    #[verifier::external_body]
    fn new(handle: std::io::Stderr) -> StderrWriter {
        StderrWriter { inner: std::io::BufWriter::new(handle) }
    }

    /// Relies on std::io::Write::write_all: as `StdoutWriter::write_all`,
    /// on the buffered stderr writer.
    #[verifier::external_body]
    fn write_all(&mut self, text: &str) -> Result<(), std::io::Error> {
        std::io::Write::write_all(&mut self.inner, text.as_bytes())
    }

    /// Relies on std::io::Write::flush: as `StdoutWriter::flush`, on the
    /// buffered stderr writer.
    #[verifier::external_body]
    fn flush(&mut self) -> Result<(), std::io::Error> {
        std::io::Write::flush(&mut self.inner)
    }
}

/// A buffered stdout writer, with the specification-level record of the
/// text it has accepted and of the prefix known to have been delivered.
pub struct StdoutStream {
    writer: StdoutWriter,
    accepted: Ghost<Seq<char>>,
    delivered: Ghost<Seq<char>>,
}

/// A buffered stderr writer, modelled as `StdoutStream` is.
pub struct StderrStream {
    writer: StderrWriter,
    accepted: Ghost<Seq<char>>,
    delivered: Ghost<Seq<char>>,
}

/// An in-memory stream: `delivered` holds the flushed text, `buffer` what
/// is still pending.
pub struct MemoryStream {
    delivered: String,
    buffer: String,
}

/// A stream the logger can write lines to and flush.
pub enum Sink {
    Stdout(StdoutStream),
    Stderr(StderrStream),
    Memory(MemoryStream),
}

impl Sink {
    /// All text the sink has accepted in successful writes, in order.
    pub closed spec fn accepted(&self) -> Seq<char> {
        match self {
            Sink::Stdout(s) => s.accepted@,
            Sink::Stderr(s) => s.accepted@,
            Sink::Memory(m) => m.delivered@ + m.buffer@,
        }
    }

    /// The prefix of the accepted text known to have left the buffer.
    pub closed spec fn delivered(&self) -> Seq<char> {
        match self {
            Sink::Stdout(s) => s.delivered@,
            Sink::Stderr(s) => s.delivered@,
            Sink::Memory(m) => m.delivered@,
        }
    }

    /// Whether the sink records its text in memory, readable back.
    pub closed spec fn is_memory(&self) -> bool {
        match self {
            Sink::Memory(_) => true,
            _ => false,
        }
    }

    /// A sink buffering the process stdout stream; nothing written yet.
    pub fn stdout() -> (r: Sink)
        ensures
            r.accepted() == Seq::<char>::empty(),
            r.delivered() == Seq::<char>::empty(),
            !r.is_memory(),
    {
        Sink::Stdout(
            StdoutStream {
                writer: StdoutWriter::new(stdout_handle()),
                accepted: Ghost(Seq::empty()),
                delivered: Ghost(Seq::empty()),
            },
        )
    }

    /// A sink buffering the process stderr stream; nothing written yet.
    pub fn stderr() -> (r: Sink)
        ensures
            r.accepted() == Seq::<char>::empty(),
            r.delivered() == Seq::<char>::empty(),
            !r.is_memory(),
    {
        Sink::Stderr(
            StderrStream {
                writer: StderrWriter::new(stderr_handle()),
                accepted: Ghost(Seq::empty()),
                delivered: Ghost(Seq::empty()),
            },
        )
    }

    /// An empty in-memory sink.
    pub fn memory() -> (r: Sink)
        ensures
            r.accepted() == Seq::<char>::empty(),
            r.delivered() == Seq::<char>::empty(),
            r.is_memory(),
    {
        Sink::Memory(MemoryStream { delivered: String::new(), buffer: String::new() })
    }

    /// Writes the whole of `text` to the sink, or fails without effect on
    /// the record.
    pub fn write_all(&mut self, text: &str) -> (r: Result<(), LogError>)
        ensures
            r is Ok ==> final(self).accepted() == old(self).accepted() + text@,
            r is Err ==> final(self).accepted() == old(self).accepted(),
            final(self).delivered() == old(self).delivered(),
            final(self).is_memory() == old(self).is_memory(),
            old(self).is_memory() ==> r is Ok,
    {
        match self {
            Sink::Stdout(s) => {
                match s.writer.write_all(text) {
                    Ok(()) => {
                        proof {
                            s.accepted@ = s.accepted@ + text@;
                        }
                        Ok(())
                    },
                    Err(e) => Err(LogError { inner: e }),
                }
            },
            Sink::Stderr(s) => {
                match s.writer.write_all(text) {
                    Ok(()) => {
                        proof {
                            s.accepted@ = s.accepted@ + text@;
                        }
                        Ok(())
                    },
                    Err(e) => Err(LogError { inner: e }),
                }
            },
            Sink::Memory(m) => {
                m.buffer.append(text);
                Ok(())
            },
        }
    }

    /// Pushes the sink's buffer out; on success everything accepted has
    /// been delivered.
    pub fn flush(&mut self) -> (r: Result<(), LogError>)
        ensures
            final(self).accepted() == old(self).accepted(),
            r is Ok ==> final(self).delivered() == final(self).accepted(),
            r is Err ==> final(self).delivered() == old(self).delivered(),
            final(self).is_memory() == old(self).is_memory(),
            old(self).is_memory() ==> r is Ok,
    {
        match self {
            Sink::Stdout(s) => {
                match s.writer.flush() {
                    Ok(()) => {
                        proof {
                            s.delivered@ = s.accepted@;
                        }
                        Ok(())
                    },
                    Err(e) => Err(LogError { inner: e }),
                }
            },
            Sink::Stderr(s) => {
                match s.writer.flush() {
                    Ok(()) => {
                        proof {
                            s.delivered@ = s.accepted@;
                        }
                        Ok(())
                    },
                    Err(e) => Err(LogError { inner: e }),
                }
            },
            Sink::Memory(m) => {
                let pending = m.buffer.clone();
                m.delivered.append(pending.as_str());
                m.buffer = String::new();
                Ok(())
            },
        }
    }

    /// The delivered text of a memory sink; `None` on a console sink.
    pub fn delivered_text(&self) -> (r: Option<&String>)
        ensures
            match r {
                Some(s) => self.is_memory() && s@ == self.delivered(),
                None => !self.is_memory(),
            },
    {
        match self {
            Sink::Memory(m) => Some(&m.delivered),
            _ => None,
        }
    }

    /// The still-buffered text of a memory sink; `None` on a console sink.
    pub fn pending_text(&self) -> (r: Option<&String>)
        ensures
            match r {
                Some(s) => self.is_memory() && self.accepted() == self.delivered() + s@,
                None => !self.is_memory(),
            },
    {
        match self {
            Sink::Memory(m) => Some(&m.buffer),
            _ => None,
        }
    }
}

} // verus!
