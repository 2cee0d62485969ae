//! Proved laws of the logger, stated over the library's specification
//! functions: the single-newline shape of every formatted line, the
//! totality and exclusivity of the routing rule, and the passivity of the
//! bypass flag.

use vstd::prelude::*;
use crate::datetime::civil_date_of_days;
use crate::datetime::four_digits;
use crate::datetime::iso8601_of;
use crate::datetime::nine_digits;
use crate::datetime::two_digits;
use crate::enums::LogColor;
use crate::enums::LogFormat;
use crate::enums::LogLevel;
use crate::logging::line_spec;
use crate::logging::routes_to_stderr;
use crate::logging::routes_to_stdout;
use crate::logging::suppressed;
use crate::logging::Logger;

verus! {

/// Number of occurrences of `c` in `s`.
pub open spec fn count_char(s: Seq<char>, c: char) -> nat
    decreases s.len(),
{
    if s.len() == 0 {
        0
    } else {
        count_char(s.drop_last(), c) + (if s.last() == c {
            1nat
        } else {
            0nat
        })
    }
}

/// Occurrence counts add up over concatenation.
pub proof fn lemma_count_char_add(a: Seq<char>, b: Seq<char>, c: char)
    ensures
        count_char(a + b, c) == count_char(a, c) + count_char(b, c),
    decreases b.len(),
{
    if b.len() == 0 {
        assert(a + b =~= a);
    } else {
        lemma_count_char_add(a, b.drop_last(), c);
        assert((a + b).drop_last() =~= a + b.drop_last());
    }
}

/// A sequence without an occurrence of `c` counts zero of them.
pub proof fn lemma_count_char_absent(s: Seq<char>, c: char)
    requires
        forall|i: int| 0 <= i < s.len() ==> s[i] != c,
    ensures
        count_char(s, c) == 0,
    decreases s.len(),
{
    if s.len() > 0 {
        lemma_count_char_absent(s.drop_last(), c);
    }
}

proof fn lemma_two_digits_no_newline(n: int)
    ensures
        count_char(two_digits(n), '\n') == 0,
{
    lemma_count_char_absent(two_digits(n), '\n');
}

proof fn lemma_four_digits_no_newline(n: int)
    ensures
        count_char(four_digits(n), '\n') == 0,
{
    lemma_two_digits_no_newline(n / 100);
    lemma_two_digits_no_newline(n % 100);
    lemma_count_char_add(two_digits(n / 100), two_digits(n % 100), '\n');
}

proof fn lemma_nine_digits_no_newline(n: int)
    ensures
        count_char(nine_digits(n), '\n') == 0,
{
    lemma_count_char_absent(nine_digits(n), '\n');
}

/// A rendered timestamp holds digits and punctuation only: no newline.
pub proof fn lemma_iso8601_no_newline(ns: u64)
    ensures
        count_char(iso8601_of(ns), '\n') == 0,
{
    let secs = ns as int / 1_000_000_000;
    let sub = ns as int % 1_000_000_000;
    let days = secs / 86_400;
    let sod = secs % 86_400;
    let date = civil_date_of_days(days);
    let p1 = four_digits(date.0);
    let p2 = seq!['-'];
    let p3 = two_digits(date.1);
    let p4 = seq!['-'];
    let p5 = two_digits(date.2);
    let p6 = seq!['T'];
    let p7 = two_digits(sod / 3_600);
    let p8 = seq![':'];
    let p9 = two_digits((sod % 3_600) / 60);
    let p10 = seq![':'];
    let p11 = two_digits(sod % 60);
    let p12 = seq!['.'];
    let p13 = nine_digits(sub);
    let p14 = seq!['Z'];
    lemma_four_digits_no_newline(date.0);
    lemma_two_digits_no_newline(date.1);
    lemma_two_digits_no_newline(date.2);
    lemma_two_digits_no_newline(sod / 3_600);
    lemma_two_digits_no_newline((sod % 3_600) / 60);
    lemma_two_digits_no_newline(sod % 60);
    lemma_nine_digits_no_newline(sub);
    lemma_count_char_absent(p2, '\n');
    lemma_count_char_absent(p4, '\n');
    lemma_count_char_absent(p6, '\n');
    lemma_count_char_absent(p8, '\n');
    lemma_count_char_absent(p10, '\n');
    lemma_count_char_absent(p12, '\n');
    lemma_count_char_absent(p14, '\n');
    lemma_count_char_add(p1, p2, '\n');
    lemma_count_char_add(p1 + p2, p3, '\n');
    lemma_count_char_add(p1 + p2 + p3, p4, '\n');
    lemma_count_char_add(p1 + p2 + p3 + p4, p5, '\n');
    lemma_count_char_add(p1 + p2 + p3 + p4 + p5, p6, '\n');
    lemma_count_char_add(p1 + p2 + p3 + p4 + p5 + p6, p7, '\n');
    lemma_count_char_add(p1 + p2 + p3 + p4 + p5 + p6 + p7, p8, '\n');
    lemma_count_char_add(p1 + p2 + p3 + p4 + p5 + p6 + p7 + p8, p9, '\n');
    lemma_count_char_add(p1 + p2 + p3 + p4 + p5 + p6 + p7 + p8 + p9, p10, '\n');
    lemma_count_char_add(p1 + p2 + p3 + p4 + p5 + p6 + p7 + p8 + p9 + p10, p11, '\n');
    lemma_count_char_add(p1 + p2 + p3 + p4 + p5 + p6 + p7 + p8 + p9 + p10 + p11, p12, '\n');
    lemma_count_char_add(p1 + p2 + p3 + p4 + p5 + p6 + p7 + p8 + p9 + p10 + p11 + p12, p13, '\n');
    lemma_count_char_add(
        p1 + p2 + p3 + p4 + p5 + p6 + p7 + p8 + p9 + p10 + p11 + p12 + p13,
        p14,
        '\n',
    );
}

proof fn lemma_color_no_newline(color: LogColor)
    ensures
        count_char(color.ansi(), '\n') == 0,
{
    lemma_count_char_absent(color.ansi(), '\n');
}

proof fn lemma_token_no_newline(level: LogLevel)
    ensures
        count_char(level.token(), '\n') == 0,
{
    lemma_count_char_absent(level.token(), '\n');
}

proof fn lemma_format_no_newline(format: LogFormat)
    ensures
        count_char(format.ansi(), '\n') == 0,
{
    lemma_count_char_absent(format.ansi(), '\n');
}

/// Law (exact-one-line): a formatted line always ends with `\n`, and it
/// contains exactly one `\n` — the terminator — whenever the trader
/// identity, the component and the message contain none. Together with
/// `Logger::log_post`, which appends the line to exactly one stream and
/// leaves the other untouched, an accepted `log` call appends exactly one
/// newline to exactly one stream.
pub proof fn lemma_line_single_newline(
    timestamp_ns: u64,
    level: LogLevel,
    color: LogColor,
    trader_id: Seq<char>,
    component: Seq<char>,
    msg: Seq<char>,
)
    requires
        count_char(trader_id, '\n') == 0,
        count_char(component, '\n') == 0,
        count_char(msg, '\n') == 0,
    ensures
        count_char(line_spec(timestamp_ns, level, color, trader_id, component, msg), '\n') == 1,
        line_spec(timestamp_ns, level, color, trader_id, component, msg).last() == '\n',
{
    let p1 = LogFormat::Bold.ansi();
    let p2 = iso8601_of(timestamp_ns);
    let p3 = LogFormat::Endc.ansi();
    let p4 = seq![' '];
    let p5 = color.ansi();
    let p6 = seq!['['];
    let p7 = level.token();
    let p8 = seq![']', ' '];
    let p9 = trader_id;
    let p10 = seq!['.'];
    let p11 = component;
    let p12 = seq![':', ' '];
    let p13 = msg;
    let p14 = LogFormat::Endc.ansi();
    let p15 = seq!['\n'];
    lemma_format_no_newline(LogFormat::Bold);
    lemma_format_no_newline(LogFormat::Endc);
    lemma_iso8601_no_newline(timestamp_ns);
    lemma_color_no_newline(color);
    lemma_token_no_newline(level);
    lemma_count_char_absent(p4, '\n');
    lemma_count_char_absent(p6, '\n');
    lemma_count_char_absent(p8, '\n');
    lemma_count_char_absent(p10, '\n');
    lemma_count_char_absent(p12, '\n');
    assert(count_char(p15, '\n') == 1) by {
        assert(p15.drop_last() =~= Seq::<char>::empty());
        assert(count_char(Seq::<char>::empty(), '\n') == 0);
        assert(p15.last() == '\n');
    }
    lemma_count_char_add(p1, p2, '\n');
    lemma_count_char_add(p1 + p2, p3, '\n');
    lemma_count_char_add(p1 + p2 + p3, p4, '\n');
    lemma_count_char_add(p1 + p2 + p3 + p4, p5, '\n');
    lemma_count_char_add(p1 + p2 + p3 + p4 + p5, p6, '\n');
    lemma_count_char_add(p1 + p2 + p3 + p4 + p5 + p6, p7, '\n');
    lemma_count_char_add(p1 + p2 + p3 + p4 + p5 + p6 + p7, p8, '\n');
    lemma_count_char_add(p1 + p2 + p3 + p4 + p5 + p6 + p7 + p8, p9, '\n');
    lemma_count_char_add(p1 + p2 + p3 + p4 + p5 + p6 + p7 + p8 + p9, p10, '\n');
    lemma_count_char_add(p1 + p2 + p3 + p4 + p5 + p6 + p7 + p8 + p9 + p10, p11, '\n');
    lemma_count_char_add(p1 + p2 + p3 + p4 + p5 + p6 + p7 + p8 + p9 + p10 + p11, p12, '\n');
    lemma_count_char_add(p1 + p2 + p3 + p4 + p5 + p6 + p7 + p8 + p9 + p10 + p11 + p12, p13, '\n');
    lemma_count_char_add(
        p1 + p2 + p3 + p4 + p5 + p6 + p7 + p8 + p9 + p10 + p11 + p12 + p13,
        p14,
        '\n',
    );
    lemma_count_char_add(
        p1 + p2 + p3 + p4 + p5 + p6 + p7 + p8 + p9 + p10 + p11 + p12 + p13 + p14,
        p15,
        '\n',
    );
}

/// Law (exact-one-line, over the streams): a successful `log` call that was
/// not suppressed leaves the two streams holding exactly one newline more
/// than before, provided the trader identity, the component and the message
/// hold none (a message with embedded newlines is passed through verbatim
/// and deliberately yields a multi-line record).
pub proof fn lemma_accepted_log_adds_one_newline(
    pre: Logger,
    post: Logger,
    r: Result<(), crate::sink::LogError>,
    timestamp_ns: u64,
    level: LogLevel,
    color: LogColor,
    component: Seq<char>,
    msg: Seq<char>,
)
    requires
        Logger::log_post(pre, post, r, timestamp_ns, level, color, component, msg),
        r is Ok,
        !suppressed(level, pre.level_stdout),
        count_char(pre.trader_id.value@, '\n') == 0,
        count_char(component, '\n') == 0,
        count_char(msg, '\n') == 0,
    ensures
        count_char(post.stdout_accepted(), '\n') + count_char(post.stderr_accepted(), '\n')
            == count_char(pre.stdout_accepted(), '\n') + count_char(pre.stderr_accepted(), '\n')
            + 1,
{
    let line = line_spec(timestamp_ns, level, color, pre.trader_id.value@, component, msg);
    lemma_line_single_newline(timestamp_ns, level, color, pre.trader_id.value@, component, msg);
    if routes_to_stderr(level) {
        lemma_count_char_add(pre.stderr_accepted(), line, '\n');
    } else {
        lemma_count_char_add(pre.stdout_accepted(), line, '\n');
    }
}

/// A decimal digit character.
pub open spec fn is_digit_char(c: char) -> bool {
    c == '0' || c == '1' || c == '2' || c == '3' || c == '4' || c == '5' || c == '6' || c == '7'
        || c == '8' || c == '9'
}

/// A character the rendered timestamp may hold: a decimal digit or one of
/// the date punctuation marks `T : . - Z`.
pub open spec fn is_timestamp_char(c: char) -> bool {
    is_digit_char(c) || c == 'T' || c == ':' || c == '.' || c == '-' || c == 'Z'
}

/// An uppercase ASCII letter.
pub open spec fn is_uppercase_char(c: char) -> bool {
    65 <= c as int && c as int <= 90
}

proof fn lemma_timestamp_chars_concat(a: Seq<char>, b: Seq<char>)
    requires
        forall|i: int| 0 <= i < a.len() ==> is_timestamp_char(a[i]),
        forall|i: int| 0 <= i < b.len() ==> is_timestamp_char(b[i]),
    ensures
        forall|i: int| 0 <= i < (a + b).len() ==> is_timestamp_char((a + b)[i]),
{
    assert forall|i: int| 0 <= i < (a + b).len() implies is_timestamp_char((a + b)[i]) by {
        if i < a.len() {
            assert((a + b)[i] == a[i]);
        } else {
            assert((a + b)[i] == b[i - a.len()]);
        }
    }
}

proof fn lemma_two_digits_timestamp_chars(n: int)
    ensures
        forall|i: int| 0 <= i < two_digits(n).len() ==> is_timestamp_char(two_digits(n)[i]),
{
}

proof fn lemma_four_digits_timestamp_chars(n: int)
    ensures
        forall|i: int| 0 <= i < four_digits(n).len() ==> is_timestamp_char(four_digits(n)[i]),
{
    lemma_two_digits_timestamp_chars(n / 100);
    lemma_two_digits_timestamp_chars(n % 100);
    lemma_timestamp_chars_concat(two_digits(n / 100), two_digits(n % 100));
}

proof fn lemma_nine_digits_timestamp_chars(n: int)
    ensures
        forall|i: int| 0 <= i < nine_digits(n).len() ==> is_timestamp_char(nine_digits(n)[i]),
{
}

/// A rendered timestamp holds only digits and the date punctuation
/// `T : . - Z`, and is never empty.
pub proof fn lemma_iso8601_timestamp_chars(ns: u64)
    ensures
        iso8601_of(ns).len() > 0,
        forall|i: int| 0 <= i < iso8601_of(ns).len() ==> is_timestamp_char(iso8601_of(ns)[i]),
{
    let secs = ns as int / 1_000_000_000;
    let sub = ns as int % 1_000_000_000;
    let days = secs / 86_400;
    let sod = secs % 86_400;
    let date = civil_date_of_days(days);
    let p1 = four_digits(date.0);
    let p2 = seq!['-'];
    let p3 = two_digits(date.1);
    let p4 = seq!['-'];
    let p5 = two_digits(date.2);
    let p6 = seq!['T'];
    let p7 = two_digits(sod / 3_600);
    let p8 = seq![':'];
    let p9 = two_digits((sod % 3_600) / 60);
    let p10 = seq![':'];
    let p11 = two_digits(sod % 60);
    let p12 = seq!['.'];
    let p13 = nine_digits(sub);
    let p14 = seq!['Z'];
    lemma_four_digits_timestamp_chars(date.0);
    lemma_two_digits_timestamp_chars(date.1);
    lemma_two_digits_timestamp_chars(date.2);
    lemma_two_digits_timestamp_chars(sod / 3_600);
    lemma_two_digits_timestamp_chars((sod % 3_600) / 60);
    lemma_two_digits_timestamp_chars(sod % 60);
    lemma_nine_digits_timestamp_chars(sub);
    lemma_timestamp_chars_concat(p1, p2);
    lemma_timestamp_chars_concat(p1 + p2, p3);
    lemma_timestamp_chars_concat(p1 + p2 + p3, p4);
    lemma_timestamp_chars_concat(p1 + p2 + p3 + p4, p5);
    lemma_timestamp_chars_concat(p1 + p2 + p3 + p4 + p5, p6);
    lemma_timestamp_chars_concat(p1 + p2 + p3 + p4 + p5 + p6, p7);
    lemma_timestamp_chars_concat(p1 + p2 + p3 + p4 + p5 + p6 + p7, p8);
    lemma_timestamp_chars_concat(p1 + p2 + p3 + p4 + p5 + p6 + p7 + p8, p9);
    lemma_timestamp_chars_concat(p1 + p2 + p3 + p4 + p5 + p6 + p7 + p8 + p9, p10);
    lemma_timestamp_chars_concat(p1 + p2 + p3 + p4 + p5 + p6 + p7 + p8 + p9 + p10, p11);
    lemma_timestamp_chars_concat(p1 + p2 + p3 + p4 + p5 + p6 + p7 + p8 + p9 + p10 + p11, p12);
    lemma_timestamp_chars_concat(
        p1 + p2 + p3 + p4 + p5 + p6 + p7 + p8 + p9 + p10 + p11 + p12,
        p13,
    );
    lemma_timestamp_chars_concat(
        p1 + p2 + p3 + p4 + p5 + p6 + p7 + p8 + p9 + p10 + p11 + p12 + p13,
        p14,
    );
}

/// Law (format stability): the pieces of `line_spec`'s documented shape —
/// bold introducer, timestamp, reset, space, optional color introducer,
/// bracketed level token, identity, message, reset, newline — have the
/// forms the shape asks for: the timestamp holds only digits and date
/// punctuation and is non-empty; the level token holds only uppercase
/// ASCII letters and is non-empty; and the color introducer is empty
/// exactly for `Normal`, and otherwise is `ESC [` then two digits (the
/// first a `3`) then `m`.
pub proof fn lemma_line_shape(timestamp_ns: u64, level: LogLevel, color: LogColor)
    ensures
        iso8601_of(timestamp_ns).len() > 0,
        forall|i: int|
            0 <= i < iso8601_of(timestamp_ns).len() ==> is_timestamp_char(
                iso8601_of(timestamp_ns)[i],
            ),
        level.token().len() > 0,
        forall|i: int| 0 <= i < level.token().len() ==> is_uppercase_char(level.token()[i]),
        color.ansi().len() == 0 <==> color is Normal,
        !(color is Normal) ==> color.ansi().len() == 5 && color.ansi()[0] == '\x1b'
            && color.ansi()[1] == '[' && color.ansi()[2] == '3' && is_digit_char(color.ansi()[3])
            && color.ansi()[4] == 'm',
{
    lemma_iso8601_timestamp_chars(timestamp_ns);
}

/// Law (construction-then-free flushes): on a successful call routed to
/// stdout the line is delivered before `log` even returns — flush on
/// emit — so the flush that freeing performs has nothing left to lose:
/// the delivered stdout text already ends with the line.
pub proof fn lemma_emitted_line_already_delivered(
    pre: Logger,
    post: Logger,
    r: Result<(), crate::sink::LogError>,
    timestamp_ns: u64,
    level: LogLevel,
    color: LogColor,
    component: Seq<char>,
    msg: Seq<char>,
)
    requires
        Logger::log_post(pre, post, r, timestamp_ns, level, color, component, msg),
        r is Ok,
        routes_to_stdout(level, pre.level_stdout),
    ensures
        post.stdout_delivered() == pre.stdout_accepted() + line_spec(
            timestamp_ns,
            level,
            color,
            pre.trader_id.value@,
            component,
            msg,
        ),
{
}

/// Law (routing): every call is routed to stderr, routed to stdout, or
/// suppressed — `level >= Error` to stderr; otherwise at or above the
/// stdout threshold to stdout; otherwise nowhere — and the three cases
/// exclude one another.
pub proof fn lemma_routing_total_and_exclusive(level: LogLevel, level_stdout: LogLevel)
    ensures
        routes_to_stderr(level) <==> level.rank() >= LogLevel::Error.rank(),
        routes_to_stdout(level, level_stdout) <==> (level.rank() < LogLevel::Error.rank()
            && level.rank() >= level_stdout.rank()),
        suppressed(level, level_stdout) <==> (level.rank() < LogLevel::Error.rank()
            && level.rank() < level_stdout.rank()),
        routes_to_stderr(level) || routes_to_stdout(level, level_stdout) || suppressed(
            level,
            level_stdout,
        ),
        !(routes_to_stderr(level) && routes_to_stdout(level, level_stdout)),
        !(routes_to_stderr(level) && suppressed(level, level_stdout)),
        !(routes_to_stdout(level, level_stdout) && suppressed(level, level_stdout)),
{
}

/// Law (bypass flag is passive): two loggers that share a stdout threshold
/// route every call alike, whatever their bypass flags; the flag plays no
/// part in whether or where `log` writes.
pub proof fn lemma_bypass_is_passive(a: Logger, b: Logger, level: LogLevel)
    requires
        a.level_stdout == b.level_stdout,
    ensures
        routes_to_stdout(level, a.level_stdout) == routes_to_stdout(level, b.level_stdout),
        suppressed(level, a.level_stdout) == suppressed(level, b.level_stdout),
{
}

} // verus!
