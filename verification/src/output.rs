//! Where the output of a command goes.
//!
//! An `OutputManager` knows, for each of the two output streams, whether it
//! goes to the stream the shell inherited or to a file, and it collects what
//! is written in the order of the writes. It performs no I/O itself: the
//! caller drains the collected writes and carries them out.

use vstd::prelude::*;
use vstd::string::StringSliceAdditionalSpecFns;
use crate::redirect::{Stream, WriteMode};

verus! {

/// The destination of one output stream.
#[derive(Debug, Clone, PartialEq, Eq)]
pub enum Sink {
    /// The stream that the shell itself was started with.
    Inherited,
    /// A file, created if absent, opened in the given mode.
    File { path: String, mode: WriteMode },
}

/// The mathematical content of a `Sink`.
pub enum Target {
    Inherited,
    File { path: Seq<char>, mode: WriteMode },
}

impl View for Sink {
    type V = Target;

    open spec fn view(&self) -> Target {
        match self {
            Sink::Inherited => Target::Inherited,
            Sink::File { path, mode } => Target::File { path: path@, mode: *mode },
        }
    }
}

impl Sink {
    /// A sink with the same destination.
    pub fn duplicate(&self) -> (r: Sink)
        ensures
            r@ == self@,
    {
        match self {
            Sink::Inherited => Sink::Inherited,
            Sink::File { path, mode } => Sink::File { path: path.clone(), mode: *mode },
        }
    }
}

/// One write: the bytes, the stream they were written to, and where that
/// stream went at the time.
#[derive(Debug, Clone, PartialEq, Eq)]
pub struct Emission {
    pub stream: Stream,
    pub sink: Sink,
    pub data: Vec<u8>,
}

/// The mathematical content of an `Emission`.
pub struct Written {
    pub stream: Stream,
    pub sink: Target,
    pub data: Seq<u8>,
}

impl View for Emission {
    type V = Written;

    open spec fn view(&self) -> Written {
        Written { stream: self.stream, sink: self.sink@, data: self.data@ }
    }
}

/// The contents of a sequence of emissions.
pub open spec fn written(v: Seq<Emission>) -> Seq<Written> {
    v.map_values(|e: Emission| e@)
}

/// The mathematical content of an `OutputManager`.
pub struct Routing {
    pub stdout: Target,
    pub stderr: Target,
    pub pending: Seq<Written>,
}

/// Both streams inherited, nothing written.
pub open spec fn default_routing() -> Routing {
    Routing { stdout: Target::Inherited, stderr: Target::Inherited, pending: Seq::empty() }
}

/// `r` with both streams back on the inherited ones. What was written stays
/// as it is.
pub open spec fn reset(r: Routing) -> Routing {
    Routing { stdout: Target::Inherited, stderr: Target::Inherited, pending: r.pending }
}

/// After a reset, whatever is written next goes to an inherited stream,
/// wherever the streams went before.
pub proof fn lemma_write_after_reset(r: Routing, stream: Stream, data: Seq<u8>)
    ensures
        after_write(reset(r), stream, data).pending.last() == (Written {
            stream,
            sink: Target::Inherited,
            data,
        }),
        after_write(reset(r), stream, data).stdout == Target::Inherited,
        after_write(reset(r), stream, data).stderr == Target::Inherited,
{
}

/// The mode that the append flag of a redirection stands for.
pub open spec fn mode_of(append: bool) -> WriteMode {
    if append {
        WriteMode::Append
    } else {
        WriteMode::Truncate
    }
}

/// `r` after `data` has been written to `stream`.
pub open spec fn after_write(r: Routing, stream: Stream, data: Seq<u8>) -> Routing {
    let sink = match stream {
        Stream::Stdout => r.stdout,
        Stream::Stderr => r.stderr,
    };
    Routing { pending: r.pending.push(Written { stream, sink, data }), ..r }
}

/// The routing of the two output streams and the writes not yet carried
/// out.
pub struct OutputManager {
    stdout: Sink,
    stderr: Sink,
    pending: Vec<Emission>,
}

impl View for OutputManager {
    type V = Routing;

    closed spec fn view(&self) -> Routing {
        Routing { stdout: self.stdout@, stderr: self.stderr@, pending: written(self.pending@) }
    }
}

impl OutputManager {
    /// A manager with both streams inherited and nothing written.
    pub fn new() -> (m: Self)
        ensures
            m@ == default_routing(),
    {
        let m = OutputManager {
            stdout: Sink::Inherited,
            stderr: Sink::Inherited,
            pending: Vec::new(),
        };
        proof {
            assert(written(m.pending@) =~= Seq::<Written>::empty());
        }
        m
    }

    /// Where standard output currently goes.
    pub fn stdout_sink(&self) -> (s: &Sink)
        ensures
            s@ == self@.stdout,
    {
        &self.stdout
    }

    /// Where standard error currently goes.
    pub fn stderr_sink(&self) -> (s: &Sink)
        ensures
            s@ == self@.stderr,
    {
        &self.stderr
    }

    fn record(&mut self, stream: Stream, data: Vec<u8>)
        ensures
            final(self)@ == after_write(old(self)@, stream, data@),
    {
        let sink = match stream {
            Stream::Stdout => self.stdout.duplicate(),
            Stream::Stderr => self.stderr.duplicate(),
        };
        let e = Emission { stream, sink, data };
        proof {
            assert(written(self.pending@.push(e)) =~= written(self.pending@).push(e@));
        }
        self.pending.push(e);
    }

    /// Writes text to standard output.
    pub fn write_stdout(&mut self, text: &str)
        ensures
            final(self)@ == after_write(old(self)@, Stream::Stdout, text.spec_bytes()),
    {
        self.record(Stream::Stdout, text.as_bytes_vec());
    }

    /// Writes text to standard error.
    pub fn write_stderr(&mut self, text: &str)
        ensures
            final(self)@ == after_write(old(self)@, Stream::Stderr, text.spec_bytes()),
    {
        self.record(Stream::Stderr, text.as_bytes_vec());
    }

    /// Writes bytes to the given stream as they are.
    pub fn forward(&mut self, stream: Stream, data: Vec<u8>)
        ensures
            final(self)@ == after_write(old(self)@, stream, data@),
    {
        self.record(stream, data);
    }

    /// Sends standard output to a file from now on. Earlier writes keep the
    /// destination they had.
    pub fn redirect_stdout(&mut self, filepath: &str, append: bool)
        ensures
            final(self)@ == (Routing {
                stdout: Target::File { path: filepath@, mode: mode_of(append) },
                ..old(self)@
            }),
    {
        let mode = if append {
            WriteMode::Append
        } else {
            WriteMode::Truncate
        };
        self.stdout = Sink::File { path: filepath.to_owned(), mode };
    }

    /// Sends standard error to a file from now on. Earlier writes keep the
    /// destination they had.
    pub fn redirect_stderr(&mut self, filepath: &str, append: bool)
        ensures
            final(self)@ == (Routing {
                stderr: Target::File { path: filepath@, mode: mode_of(append) },
                ..old(self)@
            }),
    {
        let mode = if append {
            WriteMode::Append
        } else {
            WriteMode::Truncate
        };
        self.stderr = Sink::File { path: filepath.to_owned(), mode };
    }

    /// Puts both streams back on the inherited ones.
    pub fn reset(&mut self)
        ensures
            final(self)@ == reset(old(self)@),
    {
        self.stdout = Sink::Inherited;
        self.stderr = Sink::Inherited;
    }

    /// Hands out the writes collected so far, oldest first, and forgets
    /// them. The routing stays as it is.
    pub fn drain(&mut self) -> (out: Vec<Emission>)
        ensures
            written(out@) == old(self)@.pending,
            final(self)@ == (Routing { pending: Seq::empty(), ..old(self)@ }),
    {
        let mut out: Vec<Emission> = Vec::new();
        std::mem::swap(&mut out, &mut self.pending);
        proof {
            assert(written(self.pending@) =~= Seq::<Written>::empty());
        }
        out
    }
}

} // verus!
