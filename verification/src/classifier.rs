//! Classification of the text lines the supervised process writes.
//!
//! A line is trimmed and marked `Fatal` when it carries the literal marker
//! `FATAL`, `Info` otherwise. Fatal lines are additionally matched against
//! the shape of a listen-bind failure, `listen <proto> <addr>:<port>: bind`,
//! and the conflicting port is extracted so the caller can report a
//! port-already-occupied condition instead of the raw diagnostic. The
//! matching is defined character by character below; classification never
//! fails, malformed lines simply degrade to events without a port.

use vstd::prelude::*;

verus! {

/// How severe a classified line is.
#[derive(Debug, Clone, Copy, PartialEq, Eq, Structural)]
pub enum Severity {
    Info,
    Fatal,
}

/// One classified log line: its severity, the trimmed text, and, for a
/// listen-bind failure, the conflicting port's digits.
#[derive(Debug)]
pub struct LogEvent {
    pub severity: Severity,
    pub message: String,
    pub extracted_port: Option<String>,
}

/// The mathematical value of a [`LogEvent`].
pub struct EventModel {
    pub severity: Severity,
    pub message: Seq<char>,
    pub extracted_port: Option<Seq<char>>,
}

impl View for LogEvent {
    type V = EventModel;

    open spec fn view(&self) -> EventModel {
        EventModel {
            severity: self.severity,
            message: self.message@,
            extracted_port: match self.extracted_port {
                Some(ref p) => Some(p@),
                None => None,
            },
        }
    }
}

/// A structured log line of the form `[LEVEL] YYYY/MM/DD HH:MM:SS message`.
#[derive(Debug)]
pub struct TrojanLog {
    pub level: String,
    pub timestamp: String,
    pub message: String,
}

/// The mathematical value of a [`TrojanLog`].
pub struct TrojanLogModel {
    pub level: Seq<char>,
    pub timestamp: Seq<char>,
    pub message: Seq<char>,
}

impl View for TrojanLog {
    type V = TrojanLogModel;

    open spec fn view(&self) -> TrojanLogModel {
        TrojanLogModel {
            level: self.level@,
            timestamp: self.timestamp@,
            message: self.message@,
        }
    }
}

/// The whitespace characters trimming strips.
pub open spec fn space_char(c: char) -> bool {
    c == ' ' || c == '\t' || c == '\r' || c == '\n' || c == '\u{b}' || c == '\u{c}'
}

/// A decimal digit.
pub open spec fn digit_char(c: char) -> bool {
    '0' as u32 <= c as u32 <= '9' as u32
}

/// A word character: a letter, a digit or an underscore.
pub open spec fn word_char(c: char) -> bool {
    ('a' as u32 <= c as u32 <= 'z' as u32) || ('A' as u32 <= c as u32 <= 'Z' as u32)
        || digit_char(c) || c == '_'
}

/// `s` without its leading whitespace.
pub open spec fn trim_start_rec(s: Seq<char>) -> Seq<char>
    decreases s.len(),
{
    if s.len() > 0 && space_char(s[0]) {
        trim_start_rec(s.drop_first())
    } else {
        s
    }
}

/// `s` without its trailing whitespace.
pub open spec fn trim_end_rec(s: Seq<char>) -> Seq<char>
    decreases s.len(),
{
    if s.len() > 0 && space_char(s[s.len() - 1]) {
        trim_end_rec(s.drop_last())
    } else {
        s
    }
}

/// `s` without leading and trailing whitespace.
pub open spec fn trimmed(s: Seq<char>) -> Seq<char> {
    trim_end_rec(trim_start_rec(s))
}

/// Whether `pat` occurs in `s` starting at position `i`.
pub open spec fn match_at(s: Seq<char>, pat: Seq<char>, i: int) -> bool {
    0 <= i && i + pat.len() <= s.len() && s.subrange(i, i + pat.len() as int) == pat
}

/// The first position at or after `from` where `pat` occurs in `s`, if any.
pub open spec fn find_from(s: Seq<char>, pat: Seq<char>, from: int) -> Option<int>
    decreases s.len() + 1 - from,
{
    if from < 0 || from + pat.len() > s.len() {
        None
    } else if match_at(s, pat, from) {
        Some(from)
    } else {
        find_from(s, pat, from + 1)
    }
}

/// Whether `pat` occurs anywhere in `s`.
pub open spec fn contains_seq(s: Seq<char>, pat: Seq<char>) -> bool {
    find_from(s, pat, 0) is Some
}

/// The start of the run of digits that ends just before position `k`.
pub open spec fn digit_run_start(s: Seq<char>, k: int) -> int
    decreases k,
{
    if 0 < k <= s.len() && digit_char(s[k - 1]) {
        digit_run_start(s, k - 1)
    } else {
        k
    }
}

/// The first position at or after `i` that is not a word character.
pub open spec fn word_run_end(s: Seq<char>, i: int) -> int
    decreases s.len() - i,
{
    if 0 <= i < s.len() && word_char(s[i]) {
        word_run_end(s, i + 1)
    } else {
        i
    }
}

/// The first position at or after `i` that is not whitespace.
pub open spec fn space_run_end(s: Seq<char>, i: int) -> int
    decreases s.len() - i,
{
    if 0 <= i < s.len() && space_char(s[i]) {
        space_run_end(s, i + 1)
    } else {
        i
    }
}

/// The marker that makes a line fatal.
pub open spec fn fatal_pat() -> Seq<char> {
    seq!['F', 'A', 'T', 'A', 'L']
}

/// The prefix of a listen-bind failure.
pub open spec fn listen_pat() -> Seq<char> {
    seq!['l', 'i', 's', 't', 'e', 'n', ' ']
}

/// The separator that follows the port in a listen-bind failure.
pub open spec fn bind_pat() -> Seq<char> {
    seq![':', ' ', 'b', 'i', 'n', 'd']
}

/// The port of a listen-bind failure in `t`: after the first `listen `, at
/// the first following `: bind`, the non-empty run of digits ending just
/// before it, itself preceded by a colon. `None` when `t` has no such shape.
pub open spec fn bind_port(t: Seq<char>) -> Option<Seq<char>> {
    match find_from(t, listen_pat(), 0) {
        None => None,
        Some(li) => match find_from(t, bind_pat(), li + listen_pat().len() as int) {
            None => None,
            Some(k) => {
                let j = digit_run_start(t, k);
                if j < k && 0 < j && t[j - 1] == ':' {
                    Some(t.subrange(j, k))
                } else {
                    None
                }
            },
        },
    }
}

/// What classification returns for a raw line: the trimmed text, `Fatal`
/// with the listen-bind port (when present) if the text carries `FATAL`,
/// `Info` without a port otherwise.
pub open spec fn classify_model(raw: Seq<char>) -> EventModel {
    let t = trimmed(raw);
    if contains_seq(t, fatal_pat()) {
        EventModel { severity: Severity::Fatal, message: t, extracted_port: bind_port(t) }
    } else {
        EventModel { severity: Severity::Info, message: t, extracted_port: None }
    }
}

/// Whether a date of the form `YYYY/MM/DD` stands at position `i` of `s`.
pub open spec fn date_at(s: Seq<char>, i: int) -> bool {
    &&& 0 <= i && i + 10 <= s.len()
    &&& digit_char(s[i]) && digit_char(s[i + 1]) && digit_char(s[i + 2]) && digit_char(s[i + 3])
    &&& s[i + 4] == '/'
    &&& digit_char(s[i + 5]) && digit_char(s[i + 6])
    &&& s[i + 7] == '/'
    &&& digit_char(s[i + 8]) && digit_char(s[i + 9])
}

/// Whether a time of the form `HH:MM:SS` stands at position `i` of `s`.
pub open spec fn time_at(s: Seq<char>, i: int) -> bool {
    &&& 0 <= i && i + 8 <= s.len()
    &&& digit_char(s[i]) && digit_char(s[i + 1])
    &&& s[i + 2] == ':'
    &&& digit_char(s[i + 3]) && digit_char(s[i + 4])
    &&& s[i + 5] == ':'
    &&& digit_char(s[i + 6]) && digit_char(s[i + 7])
}

/// What parsing a structured line returns: for text of the shape
/// `[LEVEL] YYYY/MM/DD HH:MM:SS message` — a bracketed non-empty run of
/// word characters, whitespace, a date, whitespace, a time, whitespace and
/// the rest — the level, the full date-and-time text, and the message;
/// `None` for any other shape.
pub open spec fn parse_log_model(s: Seq<char>) -> Option<TrojanLogModel> {
    if s.len() == 0 || s[0] != '[' {
        None
    } else {
        let le = word_run_end(s, 1);
        if le <= 1 || le >= s.len() || s[le] != ']' {
            None
        } else {
            let ds = space_run_end(s, le + 1);
            if ds == le + 1 || !date_at(s, ds) {
                None
            } else {
                let ts = space_run_end(s, ds + 10);
                if ts == ds + 10 || !time_at(s, ts) {
                    None
                } else {
                    let ms = space_run_end(s, ts + 8);
                    if ms == ts + 8 {
                        None
                    } else {
                        Some(
                            TrojanLogModel {
                                level: s.subrange(1, le),
                                timestamp: s.subrange(ds, ts + 8),
                                message: s.subrange(ms, s.len() as int),
                            },
                        )
                    }
                }
            }
        }
    }
}

/// Exec mirror of [`space_char`].
fn is_space(c: char) -> (b: bool)
    ensures
        b == space_char(c),
{
    c == ' ' || c == '\t' || c == '\r' || c == '\n' || c == '\u{b}' || c == '\u{c}'
}

/// Exec mirror of [`digit_char`].
fn is_digit(c: char) -> (b: bool)
    ensures
        b == digit_char(c),
{
    let u = c as u32;
    48 <= u && u <= 57
}

/// Exec mirror of [`word_char`].
fn is_word(c: char) -> (b: bool)
    ensures
        b == word_char(c),
{
    let u = c as u32;
    (97 <= u && u <= 122) || (65 <= u && u <= 90) || (48 <= u && u <= 57) || c == '_'
}

/// Dropping a whitespace head one position at a time reaches the same text
/// as cutting all `i` leading whitespace characters at once.
proof fn lemma_trim_start_at(s: Seq<char>, i: int)
    requires
        0 <= i <= s.len(),
        forall|k: int| 0 <= k < i ==> space_char(s[k]),
        i == s.len() || !space_char(s[i]),
    ensures
        trim_start_rec(s) =~= s.subrange(i, s.len() as int),
    decreases i,
{
    if i == 0 {
        assert(trim_start_rec(s) == s);
        assert(s.subrange(0, s.len() as int) =~= s);
    } else {
        assert(space_char(s[0]));
        let d = s.drop_first();
        assert(forall|k: int| 0 <= k < i - 1 ==> space_char(d[k]));
        lemma_trim_start_at(d, i - 1);
        assert(d.subrange(i - 1, d.len() as int) =~= s.subrange(i, s.len() as int));
    }
}

/// Dropping a whitespace tail one position at a time reaches the same text
/// as cutting everything from position `m` on at once.
proof fn lemma_trim_end_at(s: Seq<char>, m: int)
    requires
        0 <= m <= s.len(),
        forall|k: int| m <= k < s.len() ==> space_char(s[k]),
        m == 0 || !space_char(s[m - 1]),
    ensures
        trim_end_rec(s) =~= s.subrange(0, m),
    decreases s.len() - m,
{
    if m < s.len() {
        assert(space_char(s[s.len() - 1]));
        let d = s.drop_last();
        assert(forall|k: int| m <= k < d.len() ==> space_char(d[k]));
        lemma_trim_end_at(d, m);
        assert(d.subrange(0, m) =~= s.subrange(0, m));
    } else {
        if s.len() > 0 {
            assert(!space_char(s[s.len() - 1]));
        }
        assert(trim_end_rec(s) == s);
        assert(s.subrange(0, m) =~= s);
    }
}

/// Trims whitespace from both ends of `s`.
fn trim_str(s: &str) -> (t: &str)
    ensures
        t@ == trimmed(s@),
{
    let n = s.unicode_len();
    let mut i: usize = 0;
    while i < n && is_space(s.get_char(i))
        invariant
            0 <= i <= n,
            n == s@.len(),
            forall|k: int| 0 <= k < i ==> space_char(s@[k]),
        decreases n - i,
    {
        i = i + 1;
    }
    proof {
        lemma_trim_start_at(s@, i as int);
    }
    let ghost head = s@.subrange(i as int, s@.len() as int);
    let mut j: usize = n;
    while j > i && is_space(s.get_char(j - 1))
        invariant
            i <= j <= n,
            n == s@.len(),
            forall|k: int| j <= k < n ==> space_char(s@[k]),
        decreases j,
    {
        j = j - 1;
    }
    proof {
        assert(forall|k: int| (j - i) <= k < head.len() ==> space_char(head[k]));
        if j > i {
            assert(head[j - i - 1] == s@[j as int - 1]);
        }
        lemma_trim_end_at(head, j - i);
    }
    let t = s.substring_char(i, j);
    proof {
        assert(t@ =~= head.subrange(0, j - i));
    }
    t
}

/// When `pat` occurs at `i` and nowhere between `from` and `i`, the search
/// from `from` finds exactly `i`.
proof fn lemma_find_from_some(s: Seq<char>, pat: Seq<char>, from: int, i: int)
    requires
        0 <= from <= i,
        match_at(s, pat, i),
        forall|k: int| from <= k < i ==> !match_at(s, pat, k),
    ensures
        find_from(s, pat, from) == Some(i),
    decreases i - from,
{
    if from < i {
        lemma_find_from_some(s, pat, from + 1, i);
    }
}

/// When `pat` occurs nowhere at or after `from`, the search from `from`
/// finds nothing.
proof fn lemma_find_from_none(s: Seq<char>, pat: Seq<char>, from: int)
    requires
        forall|k: int| from <= k ==> !match_at(s, pat, k),
    ensures
        find_from(s, pat, from) is None,
    decreases s.len() + 1 - from,
{
    if !(from < 0 || from + pat.len() > s.len()) {
        lemma_find_from_none(s, pat, from + 1);
    }
}

/// Finds the first occurrence of `pat` in `s` at or after position `from`.
fn find_substring(s: &str, pat: &str, from: usize) -> (r: Option<usize>)
    ensures
        match r {
            Some(i) => find_from(s@, pat@, from as int) == Some(i as int) && match_at(
                s@,
                pat@,
                i as int,
            ) && from <= i && s@.len() <= usize::MAX,
            None => find_from(s@, pat@, from as int) is None,
        },
{
    let n = s.unicode_len();
    let m = pat.unicode_len();
    if m > n || from > n - m {
        proof {
            assert(forall|k: int| from <= k ==> !match_at(s@, pat@, k));
            lemma_find_from_none(s@, pat@, from as int);
        }
        return None;
    }
    let mut i: usize = from;
    while i <= n - m
        invariant
            from <= i <= n - m + 1,
            m <= n,
            n == s@.len(),
            m == pat@.len(),
            forall|k: int| from <= k < i ==> !match_at(s@, pat@, k),
        decreases n - i,
    {
        let mut j: usize = 0;
        while j < m && s.get_char(i + j) == pat.get_char(j)
            invariant
                0 <= j <= m,
                i + m <= n,
                n == s@.len(),
                m == pat@.len(),
                forall|k: int| 0 <= k < j ==> s@[i + k] == pat@[k],
            decreases m - j,
        {
            j = j + 1;
        }
        if j == m {
            proof {
                assert(s@.subrange(i as int, i + m as int) =~= pat@);
                assert(match_at(s@, pat@, i as int));
                lemma_find_from_some(s@, pat@, from as int, i as int);
            }
            return Some(i);
        }
        proof {
            assert(s@[i + j as int] != pat@[j as int]);
            assert(!match_at(s@, pat@, i as int)) by {
                if match_at(s@, pat@, i as int) {
                    assert(s@.subrange(i as int, i + m as int)[j as int] == pat@[j as int]);
                }
            }
        }
        i = i + 1;
    }
    proof {
        assert(forall|k: int| from <= k ==> !match_at(s@, pat@, k));
        lemma_find_from_none(s@, pat@, from as int);
    }
    None
}

/// Extracts the listen-bind port from the trimmed line `t`.
fn extract_bind_port(t: &str) -> (r: Option<String>)
    ensures
        match r {
            Some(p) => bind_port(t@) == Some(p@),
            None => bind_port(t@) is None,
        },
{
    proof {
        reveal_strlit("listen ");
        reveal_strlit(": bind");
        assert("listen "@ =~= listen_pat());
        assert(": bind"@ =~= bind_pat());
    }
    let li = match find_substring(t, "listen ", 0) {
        Some(i) => i,
        None => {
            return None;
        },
    };
    proof {
        assert(li + listen_pat().len() <= t@.len());
    }
    let k = match find_substring(t, ": bind", li + 7) {
        Some(i) => i,
        None => {
            return None;
        },
    };
    let mut j: usize = k;
    while j > 0 && is_digit(t.get_char(j - 1))
        invariant
            0 <= j <= k,
            k <= t@.len(),
            digit_run_start(t@, k as int) == digit_run_start(t@, j as int),
        decreases j,
    {
        j = j - 1;
    }
    proof {
        assert(digit_run_start(t@, j as int) == j as int);
    }
    if j < k && j > 0 {
        if t.get_char(j - 1) == ':' {
            let digits = t.substring_char(j, k);
            let port = digits.to_owned();
            proof {
                assert(bind_port(t@) == Some(t@.subrange(j as int, k as int)));
            }
            Some(port)
        } else {
            None
        }
    } else {
        None
    }
}

/// Classifies one raw line from the supervised process: trims it, marks it
/// `Fatal` when it carries the `FATAL` marker (`Info` otherwise), and for
/// fatal lines extracts the listen-bind conflict port when the line has
/// that shape. Never fails: every line yields an event.
pub fn classify(line: &str) -> (ev: LogEvent)
    ensures
        ev@ == classify_model(line@),
{
    proof {
        reveal_strlit("FATAL");
        assert("FATAL"@ =~= fatal_pat());
    }
    let t = trim_str(line);
    let fatal = find_substring(t, "FATAL", 0).is_some();
    if fatal {
        let port = extract_bind_port(t);
        LogEvent { severity: Severity::Fatal, message: t.to_owned(), extracted_port: port }
    } else {
        LogEvent { severity: Severity::Info, message: t.to_owned(), extracted_port: None }
    }
}

/// A found occurrence really is one: the position a search returns carries
/// a match and lies at or after the search's start.
proof fn lemma_find_from_implies_match(s: Seq<char>, pat: Seq<char>, from: int, i: int)
    requires
        find_from(s, pat, from) == Some(i),
    ensures
        match_at(s, pat, i),
        from <= i,
    decreases s.len() + 1 - from,
{
    if !(from < 0 || from + pat.len() > s.len()) && !match_at(s, pat, from) {
        lemma_find_from_implies_match(s, pat, from + 1, i);
    }
}

/// Everything between the start of a digit run and its end is a digit, and
/// the start lies between zero and the end.
proof fn lemma_digit_run_props(s: Seq<char>, k: int)
    requires
        0 <= k <= s.len(),
    ensures
        0 <= digit_run_start(s, k) <= k,
        forall|i: int| digit_run_start(s, k) <= i < k ==> digit_char(s[i]),
    decreases k,
{
    if 0 < k && digit_char(s[k - 1]) {
        lemma_digit_run_props(s, k - 1);
    }
}

/// Any port a listen-bind match extracts is a non-empty run of digits.
pub proof fn lemma_bind_port_digits(t: Seq<char>)
    requires
        bind_port(t) is Some,
    ensures
        bind_port(t)->0.len() > 0,
        forall|i: int| 0 <= i < bind_port(t)->0.len() ==> digit_char(bind_port(t)->0[i]),
{
    let li = find_from(t, listen_pat(), 0)->0;
    let k = find_from(t, bind_pat(), li + listen_pat().len() as int)->0;
    lemma_find_from_implies_match(t, bind_pat(), li + listen_pat().len() as int, k);
    lemma_digit_run_props(t, k);
}

/// The text before the port in the user-facing bind-conflict message.
pub open spec fn conflict_prefix() -> Seq<char> {
    "[FATAL] start failed: port "@
}

/// The text after the port in the user-facing bind-conflict message.
pub open spec fn conflict_suffix() -> Seq<char> {
    " is already in use; check whether another proxy program is running"@
}

/// Builds the user-facing message for a bind conflict on `port`: the
/// occupied port is named instead of relaying the raw diagnostic.
pub fn conflict_message(port: &str) -> (r: String)
    ensures
        r@ == conflict_prefix() + port@ + conflict_suffix(),
{
    let mut r = "[FATAL] start failed: port ".to_owned();
    r.append(port);
    r.append(" is already in use; check whether another proxy program is running");
    r
}

/// Scans past a run of word characters starting at `from`.
fn word_run_to(s: &str, from: usize) -> (r: usize)
    requires
        from <= s@.len(),
    ensures
        r == word_run_end(s@, from as int),
        from <= r <= s@.len(),
{
    let n = s.unicode_len();
    let mut i: usize = from;
    while i < n && is_word(s.get_char(i))
        invariant
            from <= i <= n,
            n == s@.len(),
            word_run_end(s@, from as int) == word_run_end(s@, i as int),
        decreases n - i,
    {
        i = i + 1;
    }
    i
}

/// Scans past a run of whitespace starting at `from`.
fn space_run_to(s: &str, from: usize) -> (r: usize)
    requires
        from <= s@.len(),
    ensures
        r == space_run_end(s@, from as int),
        from <= r <= s@.len(),
{
    let n = s.unicode_len();
    let mut i: usize = from;
    while i < n && is_space(s.get_char(i))
        invariant
            from <= i <= n,
            n == s@.len(),
            space_run_end(s@, from as int) == space_run_end(s@, i as int),
        decreases n - i,
    {
        i = i + 1;
    }
    i
}

/// Checks for a `YYYY/MM/DD` date at position `i`.
fn check_date_at(s: &str, i: usize) -> (b: bool)
    requires
        i <= s@.len(),
    ensures
        b == date_at(s@, i as int),
{
    let n = s.unicode_len();
    if n < 10 || i > n - 10 {
        return false;
    }
    is_digit(s.get_char(i)) && is_digit(s.get_char(i + 1)) && is_digit(s.get_char(i + 2))
        && is_digit(s.get_char(i + 3)) && s.get_char(i + 4) == '/' && is_digit(s.get_char(i + 5))
        && is_digit(s.get_char(i + 6)) && s.get_char(i + 7) == '/' && is_digit(s.get_char(i + 8))
        && is_digit(s.get_char(i + 9))
}

/// Checks for an `HH:MM:SS` time at position `i`.
fn check_time_at(s: &str, i: usize) -> (b: bool)
    requires
        i <= s@.len(),
    ensures
        b == time_at(s@, i as int),
{
    let n = s.unicode_len();
    if n < 8 || i > n - 8 {
        return false;
    }
    is_digit(s.get_char(i)) && is_digit(s.get_char(i + 1)) && s.get_char(i + 2) == ':' && is_digit(
        s.get_char(i + 3),
    ) && is_digit(s.get_char(i + 4)) && s.get_char(i + 5) == ':' && is_digit(s.get_char(i + 6))
        && is_digit(s.get_char(i + 7))
}

/// Parses a structured log line of the form
/// `[LEVEL] YYYY/MM/DD HH:MM:SS message` into its level, date-and-time text
/// and message; returns `None` for lines of any other shape.
pub fn parse_trojan_log(line: &str) -> (r: Option<TrojanLog>)
    ensures
        match r {
            Some(l) => parse_log_model(line@) == Some(l@),
            None => parse_log_model(line@) is None,
        },
{
    let n = line.unicode_len();
    if n == 0 || line.get_char(0) != '[' {
        return None;
    }
    let le = word_run_to(line, 1);
    if le <= 1 || le >= n || line.get_char(le) != ']' {
        return None;
    }
    let ds = space_run_to(line, le + 1);
    if ds == le + 1 || !check_date_at(line, ds) {
        return None;
    }
    let ts = space_run_to(line, ds + 10);
    if ts == ds + 10 || !check_time_at(line, ts) {
        return None;
    }
    let ms = space_run_to(line, ts + 8);
    if ms == ts + 8 {
        return None;
    }
    let level = line.substring_char(1, le).to_owned();
    let timestamp = line.substring_char(ds, ts + 8).to_owned();
    let message = line.substring_char(ms, n).to_owned();
    Some(TrojanLog { level: level, timestamp: timestamp, message: message })
}

} // verus!
