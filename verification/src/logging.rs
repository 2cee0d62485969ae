//! The logger core: one formatted line per accepted call, routed by
//! severity to exactly one of the two owned streams, which is flushed
//! before the call returns.

use vstd::prelude::*;
use crate::datetime::iso8601_of;
use crate::datetime::unix_nanos_to_iso8601;
use crate::enums::LogColor;
use crate::enums::LogFormat;
use crate::enums::LogLevel;
use crate::identifiers::TraderId;
use crate::sink::LogError;
use crate::sink::Sink;
use crate::uuid::UUID4;

verus! {

/// The full text of one formatted log line:
/// `<BOLD><ISO8601><RESET> <COLOR>[<LEVEL>] <TRADER>.<COMPONENT>: <MSG><RESET>\n`.
/// The message is inserted verbatim — no escaping, no truncation.
pub open spec fn line_spec(
    timestamp_ns: u64,
    level: LogLevel,
    color: LogColor,
    trader_id: Seq<char>,
    component: Seq<char>,
    msg: Seq<char>,
) -> Seq<char> {
    LogFormat::Bold.ansi() + iso8601_of(timestamp_ns) + LogFormat::Endc.ansi() + seq![' ']
        + color.ansi() + seq!['['] + level.token() + seq![']', ' '] + trader_id + seq!['.']
        + component + seq![':', ' '] + msg + LogFormat::Endc.ansi() + seq!['\n']
}

/// Severities at or above `Error` are routed to stderr.
pub open spec fn routes_to_stderr(level: LogLevel) -> bool {
    level.rank() >= LogLevel::Error.rank()
}

/// Severities below `Error` but at or above the stdout threshold are routed
/// to stdout.
pub open spec fn routes_to_stdout(level: LogLevel, level_stdout: LogLevel) -> bool {
    !routes_to_stderr(level) && level.rank() >= level_stdout.rank()
}

/// Severities below `Error` and below the stdout threshold are suppressed:
/// nothing is written.
pub open spec fn suppressed(level: LogLevel, level_stdout: LogLevel) -> bool {
    !routes_to_stderr(level) && !routes_to_stdout(level, level_stdout)
}

/// Assembles one terminal line from the call's fields.
pub fn format_line(
    timestamp_ns: u64,
    level: LogLevel,
    color: LogColor,
    trader_id: &TraderId,
    component: &str,
    msg: &str,
) -> (r: String)
    ensures
        r@ == line_spec(timestamp_ns, level, color, trader_id.value@, component@, msg@),
{
    let mut line = String::from_str(LogFormat::Bold.ansi_str());
    line.append(unix_nanos_to_iso8601(timestamp_ns).as_str());
    line.append(LogFormat::Endc.ansi_str());
    proof {
        reveal_strlit(" ");
        reveal_strlit("[");
        reveal_strlit("] ");
        reveal_strlit(".");
        reveal_strlit(": ");
        reveal_strlit("\n");
    }
    line.append(" ");
    line.append(color.ansi_str());
    line.append("[");
    line.append(level.token_str());
    line.append("] ");
    line.append(trader_id.value.as_str());
    line.append(".");
    line.append(component);
    line.append(": ");
    line.append(msg);
    line.append(LogFormat::Endc.ansi_str());
    line.append("\n");
    proof {
        assert(line@ =~= line_spec(
            timestamp_ns,
            level,
            color,
            trader_id.value@,
            component@,
            msg@,
        ));
    }
    line
}

/// A leveled line logger scoped to a single trading process. It owns its
/// two stream sinks exclusively; the identity fields and the stdout
/// threshold never change after construction.
pub struct Logger {
    pub trader_id: TraderId,
    pub machine_id: String,
    pub instance_id: UUID4,
    pub level_stdout: LogLevel,
    pub is_bypassed: bool,
    pub out: Sink,
    pub err: Sink,
}

impl Logger {
    /// All text the stdout sink has accepted, in order.
    pub closed spec fn stdout_accepted(&self) -> Seq<char> {
        self.out.accepted()
    }

    /// The prefix of the stdout text known to have left the buffer.
    pub closed spec fn stdout_delivered(&self) -> Seq<char> {
        self.out.delivered()
    }

    /// All text the stderr sink has accepted, in order.
    pub closed spec fn stderr_accepted(&self) -> Seq<char> {
        self.err.accepted()
    }

    /// The prefix of the stderr text known to have left the buffer.
    pub closed spec fn stderr_delivered(&self) -> Seq<char> {
        self.err.delivered()
    }

    /// What one `log` call does to the logger. The identity fields, the
    /// threshold and the bypass flag never change. On success the routed
    /// stream gains exactly the formatted line and holds nothing back in
    /// its buffer; the other stream is untouched. A suppressed call writes
    /// nothing and cannot fail; a call routed to a memory sink cannot fail
    /// either, since no stream write decides it. On failure the routed
    /// stream has gained the line or nothing, and nothing new is known
    /// delivered.
    pub open spec fn log_post(
        pre: Logger,
        post: Logger,
        r: Result<(), LogError>,
        timestamp_ns: u64,
        level: LogLevel,
        color: LogColor,
        component: Seq<char>,
        msg: Seq<char>,
    ) -> bool {
        let line = line_spec(timestamp_ns, level, color, pre.trader_id.value@, component, msg);
        &&& post.trader_id == pre.trader_id
        &&& post.machine_id == pre.machine_id
        &&& post.instance_id == pre.instance_id
        &&& post.level_stdout == pre.level_stdout
        &&& post.is_bypassed == pre.is_bypassed
        &&& post.out.is_memory() == pre.out.is_memory()
        &&& post.err.is_memory() == pre.err.is_memory()
        &&& (routes_to_stderr(level) && pre.err.is_memory() ==> r is Ok)
        &&& (routes_to_stdout(level, pre.level_stdout) && pre.out.is_memory() ==> r is Ok)
        &&& (routes_to_stderr(level) ==> {
            &&& post.stdout_accepted() == pre.stdout_accepted()
            &&& post.stdout_delivered() == pre.stdout_delivered()
            &&& (r is Ok ==> post.stderr_accepted() == pre.stderr_accepted() + line
                && post.stderr_delivered() == post.stderr_accepted())
            &&& (r is Err ==> post.stderr_delivered() == pre.stderr_delivered() && (
            post.stderr_accepted() == pre.stderr_accepted() || post.stderr_accepted()
                == pre.stderr_accepted() + line))
        })
        &&& (routes_to_stdout(level, pre.level_stdout) ==> {
            &&& post.stderr_accepted() == pre.stderr_accepted()
            &&& post.stderr_delivered() == pre.stderr_delivered()
            &&& (r is Ok ==> post.stdout_accepted() == pre.stdout_accepted() + line
                && post.stdout_delivered() == post.stdout_accepted())
            &&& (r is Err ==> post.stdout_delivered() == pre.stdout_delivered() && (
            post.stdout_accepted() == pre.stdout_accepted() || post.stdout_accepted()
                == pre.stdout_accepted() + line))
        })
        &&& (suppressed(level, pre.level_stdout) ==> {
            &&& r is Ok
            &&& post.stdout_accepted() == pre.stdout_accepted()
            &&& post.stdout_delivered() == pre.stdout_delivered()
            &&& post.stderr_accepted() == pre.stderr_accepted()
            &&& post.stderr_delivered() == pre.stderr_delivered()
        })
    }

    /// A logger over the given sinks; the identity fields and the
    /// threshold are those supplied, and nothing has been written.
    pub fn with_sinks(
        trader_id: TraderId,
        machine_id: String,
        instance_id: UUID4,
        level_stdout: LogLevel,
        is_bypassed: bool,
        out: Sink,
        err: Sink,
    ) -> (r: Logger)
        ensures
            r.trader_id == trader_id,
            r.machine_id == machine_id,
            r.instance_id == instance_id,
            r.level_stdout == level_stdout,
            r.is_bypassed == is_bypassed,
            r.out == out,
            r.err == err,
            r.stdout_accepted() == out.accepted(),
            r.stdout_delivered() == out.delivered(),
            r.stderr_accepted() == err.accepted(),
            r.stderr_delivered() == err.delivered(),
    {
        Logger { trader_id, machine_id, instance_id, level_stdout, is_bypassed, out, err }
    }

    /// A logger over the process stdout and stderr streams.
    pub fn new(
        trader_id: TraderId,
        machine_id: String,
        instance_id: UUID4,
        level_stdout: LogLevel,
        is_bypassed: bool,
    ) -> (r: Logger)
        ensures
            r.trader_id == trader_id,
            r.machine_id == machine_id,
            r.instance_id == instance_id,
            r.level_stdout == level_stdout,
            r.is_bypassed == is_bypassed,
            r.stdout_accepted() == Seq::<char>::empty(),
            r.stdout_delivered() == Seq::<char>::empty(),
            r.stderr_accepted() == Seq::<char>::empty(),
            r.stderr_delivered() == Seq::<char>::empty(),
            !r.out.is_memory(),
            !r.err.is_memory(),
    {
        Logger::with_sinks(
            trader_id,
            machine_id,
            instance_id,
            level_stdout,
            is_bypassed,
            Sink::stdout(),
            Sink::stderr(),
        )
    }

    /// Formats one line and routes it: `Error` and above to stderr, at or
    /// above the stdout threshold to stdout, below both nowhere. The
    /// routed stream is flushed before the call returns.
    pub fn log(
        &mut self,
        timestamp_ns: u64,
        level: LogLevel,
        color: LogColor,
        component: &str,
        msg: &str,
    ) -> (r: Result<(), LogError>)
        ensures
            Logger::log_post(
                *old(self),
                *final(self),
                r,
                timestamp_ns,
                level,
                color,
                component@,
                msg@,
            ),
    {
        let line = format_line(timestamp_ns, level, color, &self.trader_id, component, msg);
        if level.ge(LogLevel::Error) {
            match self.err.write_all(line.as_str()) {
                Ok(()) => self.err.flush(),
                Err(e) => Err(e),
            }
        } else if level.ge(self.level_stdout) {
            match self.out.write_all(line.as_str()) {
                Ok(()) => self.out.flush(),
                Err(e) => Err(e),
            }
        } else {
            Ok(())
        }
    }

    /// Logs at `Debug` severity.
    pub fn debug(&mut self, timestamp_ns: u64, color: LogColor, component: &str, msg: &str) -> (r:
        Result<(), LogError>)
        ensures
            Logger::log_post(
                *old(self),
                *final(self),
                r,
                timestamp_ns,
                LogLevel::Debug,
                color,
                component@,
                msg@,
            ),
    {
        self.log(timestamp_ns, LogLevel::Debug, color, component, msg)
    }

    /// Logs at `Info` severity.
    pub fn info(&mut self, timestamp_ns: u64, color: LogColor, component: &str, msg: &str) -> (r:
        Result<(), LogError>)
        ensures
            Logger::log_post(
                *old(self),
                *final(self),
                r,
                timestamp_ns,
                LogLevel::Info,
                color,
                component@,
                msg@,
            ),
    {
        self.log(timestamp_ns, LogLevel::Info, color, component, msg)
    }

    /// Logs at `Warning` severity.
    pub fn warn(&mut self, timestamp_ns: u64, color: LogColor, component: &str, msg: &str) -> (r:
        Result<(), LogError>)
        ensures
            Logger::log_post(
                *old(self),
                *final(self),
                r,
                timestamp_ns,
                LogLevel::Warning,
                color,
                component@,
                msg@,
            ),
    {
        self.log(timestamp_ns, LogLevel::Warning, color, component, msg)
    }

    /// Logs at `Error` severity.
    pub fn error(&mut self, timestamp_ns: u64, color: LogColor, component: &str, msg: &str) -> (r:
        Result<(), LogError>)
        ensures
            Logger::log_post(
                *old(self),
                *final(self),
                r,
                timestamp_ns,
                LogLevel::Error,
                color,
                component@,
                msg@,
            ),
    {
        self.log(timestamp_ns, LogLevel::Error, color, component, msg)
    }

    /// Logs at `Critical` severity.
    pub fn critical(&mut self, timestamp_ns: u64, color: LogColor, component: &str, msg: &str) -> (
        r: Result<(), LogError>)
        ensures
            Logger::log_post(
                *old(self),
                *final(self),
                r,
                timestamp_ns,
                LogLevel::Critical,
                color,
                component@,
                msg@,
            ),
    {
        self.log(timestamp_ns, LogLevel::Critical, color, component, msg)
    }

    /// Flushes stdout then stderr, attempting both even if the first
    /// fails; returns the first error encountered. Accepted text is never
    /// altered, each stream's delivery only grows, and a memory sink is
    /// always fully delivered afterwards, whatever the other stream did.
    pub fn flush(&mut self) -> (r: Result<(), LogError>)
        ensures
            final(self).trader_id == old(self).trader_id,
            final(self).machine_id == old(self).machine_id,
            final(self).instance_id == old(self).instance_id,
            final(self).level_stdout == old(self).level_stdout,
            final(self).is_bypassed == old(self).is_bypassed,
            final(self).stdout_accepted() == old(self).stdout_accepted(),
            final(self).stderr_accepted() == old(self).stderr_accepted(),
            final(self).out.is_memory() == old(self).out.is_memory(),
            final(self).err.is_memory() == old(self).err.is_memory(),
            r is Ok ==> final(self).stdout_delivered() == final(self).stdout_accepted()
                && final(self).stderr_delivered() == final(self).stderr_accepted(),
            old(self).out.is_memory() && old(self).err.is_memory() ==> r is Ok,
            old(self).out.is_memory() ==> final(self).stdout_delivered() == final(self).stdout_accepted(),
            old(self).err.is_memory() ==> final(self).stderr_delivered() == final(self).stderr_accepted(),
            final(self).stdout_delivered() == old(self).stdout_delivered() || final(self).stdout_delivered() == final(self).stdout_accepted(),
            final(self).stderr_delivered() == old(self).stderr_delivered() || final(self).stderr_delivered() == final(self).stderr_accepted(),
    {
        let r_out = self.out.flush();
        let r_err = self.err.flush();
        match r_out {
            Ok(()) => r_err,
            Err(e) => Err(e),
        }
    }

    /// The delivered stdout text, observable when the logger was built
    /// over a memory sink; `None` on a console sink.
    pub fn stdout_delivered_text(&self) -> (r: Option<&String>)
        ensures
            r is Some <==> self.out.is_memory(),
            r is Some ==> r.unwrap()@ == self.stdout_delivered(),
    {
        self.out.delivered_text()
    }

    /// The still-buffered stdout text; `None` on a console sink.
    pub fn stdout_pending_text(&self) -> (r: Option<&String>)
        ensures
            r is Some <==> self.out.is_memory(),
            r is Some ==> self.stdout_accepted() == self.stdout_delivered() + r.unwrap()@,
    {
        self.out.pending_text()
    }

    /// The delivered stderr text, observable when the logger was built
    /// over a memory sink; `None` on a console sink.
    pub fn stderr_delivered_text(&self) -> (r: Option<&String>)
        ensures
            r is Some <==> self.err.is_memory(),
            r is Some ==> r.unwrap()@ == self.stderr_delivered(),
    {
        self.err.delivered_text()
    }

    /// The still-buffered stderr text; `None` on a console sink.
    pub fn stderr_pending_text(&self) -> (r: Option<&String>)
        ensures
            r is Some <==> self.err.is_memory(),
            r is Some ==> self.stderr_accepted() == self.stderr_delivered() + r.unwrap()@,
    {
        self.err.pending_text()
    }
}

} // verus!
