//! Transaction-log parsing: reading execution details out of the log
//! lines that an execution leaves behind.
//!
//! A log line names a value after a marker such as `Strategy:`; the
//! parser finds the first marker, takes the text up to the next marker or
//! the end of the line, and reads the first whitespace-separated token
//! out of it. Across a whole transaction the last readable value of each
//! marker wins, and an alert is produced only when a strategy address or
//! an executor was found.

use vstd::prelude::*;
use vstd::string::{StrSliceExecFns, StringExecFns};

verus! {

/// Whitespace, as the White_Space property defines it.
pub open spec fn is_space(c: char) -> bool {
    ||| c == '\u{9}'
    ||| c == '\u{a}'
    ||| c == '\u{b}'
    ||| c == '\u{c}'
    ||| c == '\u{d}'
    ||| c == ' '
    ||| c == '\u{85}'
    ||| c == '\u{a0}'
    ||| c == '\u{1680}'
    ||| c == '\u{2000}'
    ||| c == '\u{2001}'
    ||| c == '\u{2002}'
    ||| c == '\u{2003}'
    ||| c == '\u{2004}'
    ||| c == '\u{2005}'
    ||| c == '\u{2006}'
    ||| c == '\u{2007}'
    ||| c == '\u{2008}'
    ||| c == '\u{2009}'
    ||| c == '\u{200a}'
    ||| c == '\u{2028}'
    ||| c == '\u{2029}'
    ||| c == '\u{202f}'
    ||| c == '\u{205f}'
    ||| c == '\u{3000}'
}

/// Whitespace test on one character.
fn is_space_char(c: char) -> (r: bool)
    ensures
        r == is_space(c),
{
    c == '\u{9}' || c == '\u{a}' || c == '\u{b}' || c == '\u{c}' || c == '\u{d}' || c == ' '
        || c == '\u{85}' || c == '\u{a0}' || c == '\u{1680}' || c == '\u{2000}' || c == '\u{2001}'
        || c == '\u{2002}' || c == '\u{2003}' || c == '\u{2004}' || c == '\u{2005}'
        || c == '\u{2006}' || c == '\u{2007}' || c == '\u{2008}' || c == '\u{2009}'
        || c == '\u{200a}' || c == '\u{2028}' || c == '\u{2029}' || c == '\u{202f}'
        || c == '\u{205f}' || c == '\u{3000}'
}

/// Whether `p` occurs in `s` starting at position `i`.
pub open spec fn matches_at(s: Seq<char>, p: Seq<char>, i: int) -> bool {
    0 <= i && i + p.len() <= s.len() && s.subrange(i, i + p.len() as int) == p
}

/// The first position at or after `i` where `p` occurs in `s`.
pub open spec fn find_from(s: Seq<char>, p: Seq<char>, i: int) -> Option<int>
    decreases s.len() - i,
{
    if i < 0 || i + p.len() > s.len() {
        None
    } else if p.len() == 0 || matches_at(s, p, i) {
        Some(i)
    } else {
        find_from(s, p, i + 1)
    }
}

/// A found position is a position in range where the pattern occurs, and
/// the earliest one at or after the start.
pub proof fn lemma_find_from_some(s: Seq<char>, p: Seq<char>, i: int, j: int)
    requires
        find_from(s, p, i) == Some(j),
    ensures
        i <= j,
        matches_at(s, p, j),
        forall|k: int| i <= k < j ==> !matches_at(s, p, k),
    decreases s.len() - i,
{
    if !(i < 0 || i + p.len() > s.len()) {
        if p.len() == 0 || matches_at(s, p, i) {
            if p.len() == 0 {
                assert(s.subrange(i, i) =~= p);
            }
        } else {
            lemma_find_from_some(s, p, i + 1, j);
        }
    }
}

/// The first position in `[i, end)` holding a non-whitespace character,
/// or `end`.
pub open spec fn skip_spaces(s: Seq<char>, i: int, end: int) -> int
    decreases end - i,
{
    if i >= end {
        end
    } else if is_space(s[i]) {
        skip_spaces(s, i + 1, end)
    } else {
        i
    }
}

/// The first position in `[i, end)` holding a whitespace character, or
/// `end`.
pub open spec fn token_end(s: Seq<char>, i: int, end: int) -> int
    decreases end - i,
{
    if i >= end {
        end
    } else if is_space(s[i]) {
        i
    } else {
        token_end(s, i + 1, end)
    }
}

/// Whether `p` occurs anywhere in `s`.
pub open spec fn contains_seq(s: Seq<char>, p: Seq<char>) -> bool {
    find_from(s, p, 0) is Some
}

/// The token a log line yields for a marker: the first
/// whitespace-separated token of the text between the first occurrence
/// of the marker and the next occurrence (or the end of the line); none
/// when the marker does not occur or only whitespace follows it.
pub open spec fn extract_token(log: Seq<char>, prefix: Seq<char>) -> Option<Seq<char>> {
    match find_from(log, prefix, 0) {
        None => None,
        Some(first) => {
            let seg_start = first + prefix.len();
            let seg_end = match find_from(log, prefix, seg_start) {
                Some(next) => next,
                None => log.len() as int,
            };
            let tok_start = skip_spaces(log, seg_start, seg_end);
            if tok_start >= seg_end {
                None
            } else {
                Some(log.subrange(tok_start, token_end(log, tok_start, seg_end)))
            }
        },
    }
}

/// Whether `p` occurs in `s` at position `i`, by comparing characters.
fn match_at(s: &str, p: &str, i: usize, s_len: usize, p_len: usize) -> (r: bool)
    requires
        s_len == s@.len(),
        p_len == p@.len(),
        i + p_len <= s_len,
    ensures
        r == matches_at(s@, p@, i as int),
{
    let mut k: usize = 0;
    while k < p_len
        invariant
            k <= p_len,
            s_len == s@.len(),
            p_len == p@.len(),
            i + p_len <= s_len,
            forall|j: int| 0 <= j < k ==> s@[i + j] == p@[j],
        decreases p_len - k,
    {
        if s.get_char(i + k) != p.get_char(k) {
            proof {
                assert(s@.subrange(i as int, i + p@.len() as int) != p@) by {
                    assert(s@.subrange(i as int, i + p@.len() as int)[k as int] != p@[k as int]);
                }
            }
            return false;
        }
        k = k + 1;
    }
    proof {
        assert(s@.subrange(i as int, i + p@.len() as int) =~= p@);
    }
    true
}

/// The first position at or after `from` where `p` occurs in `s`.
fn find_first(s: &str, p: &str, from: usize, s_len: usize, p_len: usize) -> (r: Option<usize>)
    requires
        s_len == s@.len(),
        p_len == p@.len(),
        from <= s_len,
    ensures
        match r {
            Some(i) => from <= i && i + p_len <= s_len && Some(i as int) == find_from(
                s@,
                p@,
                from as int,
            ),
            None => find_from(s@, p@, from as int) is None,
        },
{
    if p_len > s_len {
        return None;
    }
    if p_len == 0 {
        proof {
            assert(s@.subrange(from as int, from as int) =~= p@);
        }
        return Some(from);
    }
    let last: usize = s_len - p_len;
    let mut i: usize = from;
    if i > last {
        return None;
    }
    while i <= last
        invariant
            from <= i <= last + 1,
            last == s_len - p_len,
            1 <= p_len <= s_len,
            s_len == s@.len(),
            p_len == p@.len(),
            find_from(s@, p@, from as int) == find_from(s@, p@, i as int),
        decreases last + 1 - i,
    {
        if match_at(s, p, i, s_len, p_len) {
            return Some(i);
        }
        i = i + 1;
    }
    None
}

/// The first non-whitespace position in `[start, end)`, or `end`.
fn skip_spaces_exec(s: &str, start: usize, end: usize) -> (r: usize)
    requires
        start <= end,
        end <= s@.len(),
    ensures
        r == skip_spaces(s@, start as int, end as int),
        start <= r <= end,
{
    let mut i: usize = start;
    while i < end
        invariant
            start <= i <= end,
            end <= s@.len(),
            skip_spaces(s@, start as int, end as int) == skip_spaces(s@, i as int, end as int),
        decreases end - i,
    {
        if !is_space_char(s.get_char(i)) {
            return i;
        }
        i = i + 1;
    }
    end
}

/// The first whitespace position in `[start, end)`, or `end`.
fn token_end_exec(s: &str, start: usize, end: usize) -> (r: usize)
    requires
        start <= end,
        end <= s@.len(),
    ensures
        r == token_end(s@, start as int, end as int),
        start <= r <= end,
{
    let mut i: usize = start;
    while i < end
        invariant
            start <= i <= end,
            end <= s@.len(),
            token_end(s@, start as int, end as int) == token_end(s@, i as int, end as int),
        decreases end - i,
    {
        if is_space_char(s.get_char(i)) {
            return i;
        }
        i = i + 1;
    }
    end
}

/// Read the value named after `prefix` out of a log line: the first
/// whitespace-separated token between the first occurrence of `prefix`
/// and the next one or the end of the line.
pub fn extract_address_from_log(log: &str, prefix: &str) -> (r: Option<String>)
    ensures
        match r {
            Some(token) => Some(token@) == extract_token(log@, prefix@),
            None => extract_token(log@, prefix@) is None,
        },
{
    let s_len = log.unicode_len();
    let p_len = prefix.unicode_len();
    let first = match find_first(log, prefix, 0, s_len, p_len) {
        Some(i) => i,
        None => {
            return None;
        },
    };
    let seg_start = first + p_len;
    let seg_end = match find_first(log, prefix, seg_start, s_len, p_len) {
        Some(next) => next,
        None => s_len,
    };
    proof {
        if find_from(log@, prefix@, seg_start as int) is Some {
            lemma_find_from_some(
                log@,
                prefix@,
                seg_start as int,
                find_from(log@, prefix@, seg_start as int).unwrap(),
            );
        }
    }
    let tok_start = skip_spaces_exec(log, seg_start, seg_end);
    if tok_start >= seg_end {
        return None;
    }
    let tok_stop = token_end_exec(log, tok_start, seg_end);
    let token = log.substring_char(tok_start, tok_stop);
    Some(token.to_owned())
}


/// A decimal digit.
pub open spec fn is_digit(c: char) -> bool {
    '0' <= c && c <= '9'
}

/// Every character is a decimal digit.
pub open spec fn all_digits(s: Seq<char>) -> bool {
    forall|i: int| 0 <= i < s.len() ==> is_digit(#[trigger] s[i])
}

/// The value of a digit string read in base ten.
pub open spec fn digits_to_int(s: Seq<char>) -> int
    decreases s.len(),
{
    if s.len() == 0 {
        0
    } else {
        digits_to_int(s.drop_last()) * 10 + (s.last() as u32 - '0' as u32)
    }
}

/// A digit string's value is never negative.
pub proof fn lemma_digits_to_int_nonneg(s: Seq<char>)
    requires
        all_digits(s),
    ensures
        digits_to_int(s) >= 0,
    decreases s.len(),
{
    if s.len() > 0 {
        assert(all_digits(s.drop_last())) by {
            assert(forall|i: int|
                0 <= i < s.len() - 1 ==> #[trigger] s.drop_last()[i] == s[i]);
        }
        lemma_digits_to_int_nonneg(s.drop_last());
        assert(is_digit(s.last()));
    }
}

/// The position after the last non-whitespace character in `[0, end)`,
/// or zero when there is none.
pub open spec fn last_non_space(s: Seq<char>, end: int) -> int
    decreases end,
{
    if end <= 0 {
        0
    } else if is_space(s[end - 1]) {
        last_non_space(s, end - 1)
    } else {
        end
    }
}

/// The text with leading and trailing whitespace removed.
pub open spec fn trimmed(s: Seq<char>) -> Seq<char> {
    let a = skip_spaces(s, 0, s.len() as int);
    let b = last_non_space(s, s.len() as int);
    if a < b {
        s.subrange(a, b)
    } else {
        Seq::empty()
    }
}

/// What reading the text as a signed 64-bit decimal number yields: an
/// optional sign, then at least one digit and nothing else, within the
/// type's range.
pub open spec fn parse_i64(s: Seq<char>) -> Option<i64> {
    let negative = s.len() > 0 && s[0] == '-';
    let digits = if s.len() > 0 && (s[0] == '-' || s[0] == '+') {
        s.subrange(1, s.len() as int)
    } else {
        s
    };
    if digits.len() == 0 || !all_digits(digits) {
        None
    } else {
        let value = if negative {
            -digits_to_int(digits)
        } else {
            digits_to_int(digits)
        };
        if i64::MIN <= value <= i64::MAX {
            Some(value as i64)
        } else {
            None
        }
    }
}

/// Read the characters of `s` between `start` and `end` as a signed
/// 64-bit decimal number.
fn parse_i64_range(s: &str, start: usize, end: usize) -> (r: Option<i64>)
    requires
        start <= end,
        end <= s@.len(),
    ensures
        r == parse_i64(s@.subrange(start as int, end as int)),
{
    let ghost text = s@.subrange(start as int, end as int);
    if start == end {
        return None;
    }
    let first = s.get_char(start);
    let negative = first == '-';
    let digit_start: usize = if first == '-' || first == '+' {
        start + 1
    } else {
        start
    };
    let ghost digits = if first == '-' || first == '+' {
        text.subrange(1, text.len() as int)
    } else {
        text
    };
    proof {
        assert(digits =~= s@.subrange(digit_start as int, end as int));
    }
    if digit_start == end {
        return None;
    }
    // One past the largest magnitude an i64 can carry on either side.
    let cap: u128 = 9_223_372_036_854_775_808;
    let mut magnitude: u128 = 0;
    let mut i: usize = digit_start;
    while i < end
        invariant
            start <= digit_start <= i <= end,
            end <= s@.len(),
            text =~= s@.subrange(start as int, end as int),
            text.len() > 0,
            negative == (text[0] == '-'),
            digit_start == if text[0] == '-' || text[0] == '+' {
                start + 1
            } else {
                start as int
            },
            digits =~= s@.subrange(digit_start as int, end as int),
            (text[0] == '-' || text[0] == '+') ==> digits =~= text.subrange(
                1,
                text.len() as int,
            ),
            !(text[0] == '-' || text[0] == '+') ==> digits =~= text,
            all_digits(digits.subrange(0, i - digit_start)),
            cap == 9_223_372_036_854_775_808,
            magnitude <= cap + 1,
            digits_to_int(digits.subrange(0, i - digit_start)) <= cap ==> magnitude
                == digits_to_int(digits.subrange(0, i - digit_start)),
            digits_to_int(digits.subrange(0, i - digit_start)) > cap ==> magnitude == cap + 1,
            digits_to_int(digits.subrange(0, i - digit_start)) >= 0,
        decreases end - i,
    {
        let c = s.get_char(i);
        if !(c >= '0' && c <= '9') {
            proof {
                assert(!is_digit(digits[i - digit_start]));
            }
            return None;
        }
        let d: u128 = (c as u32 - '0' as u32) as u128;
        let ghost prefix = digits.subrange(0, i - digit_start);
        let ghost grown = digits.subrange(0, i + 1 - digit_start);
        proof {
            assert(grown.drop_last() =~= prefix);
            assert(grown.last() == digits[i - digit_start]);
            assert(digits_to_int(grown) == digits_to_int(prefix) * 10 + d);
        }
        if magnitude > cap {
            proof {
                assert(digits_to_int(prefix) * 10 >= digits_to_int(prefix)) by (nonlinear_arith)
                    requires
                        digits_to_int(prefix) >= 0,
                ;
            }
        } else {
            magnitude = magnitude * 10 + d;
            if magnitude > cap {
                proof {
                    assert(digits_to_int(grown) > cap);
                }
                magnitude = cap + 1;
            }
        }
        proof {
            if digits_to_int(prefix) > cap {
                assert(digits_to_int(prefix) * 10 + d > cap) by (nonlinear_arith)
                    requires
                        digits_to_int(prefix) > cap,
                        cap >= 0,
                        d >= 0,
                ;
            }
        }
        i = i + 1;
    }
    proof {
        assert(digits.subrange(0, (end - digit_start) as int) =~= digits);
        lemma_digits_to_int_nonneg(digits);
    }
    if negative {
        if magnitude > cap {
            return None;
        }
        let wide: i128 = -(magnitude as i128);
        Some(wide as i64)
    } else {
        if magnitude >= cap {
            return None;
        }
        Some(magnitude as i64)
    }
}

/// Whether the marker occurs anywhere in the text.
fn contains_marker(s: &str, p: &str) -> (r: bool)
    ensures
        r == contains_seq(s@, p@),
{
    let s_len = s.unicode_len();
    let p_len = p.unicode_len();
    match find_first(s, p, 0, s_len, p_len) {
        Some(_) => true,
        None => false,
    }
}

/// The profit a log line reports: the text between the first `Profit:`
/// marker and the next one (or the end of the line), trimmed and read as
/// a signed decimal number.
pub open spec fn profit_of_log(log: Seq<char>) -> Option<i64> {
    match find_from(log, "Profit:"@, 0) {
        None => None,
        Some(first) => {
            let seg_start = first + "Profit:"@.len();
            let seg_end = match find_from(log, "Profit:"@, seg_start) {
                Some(next) => next,
                None => log.len() as int,
            };
            parse_i64(trimmed(log.subrange(seg_start, seg_end)))
        },
    }
}

/// Read the profit a log line reports, if any.
fn parse_profit_from_log(log: &str) -> (r: Option<i64>)
    ensures
        r == profit_of_log(log@),
{
    let marker = "Profit:";
    let s_len = log.unicode_len();
    let p_len = marker.unicode_len();
    let first = match find_first(log, marker, 0, s_len, p_len) {
        Some(i) => i,
        None => {
            return None;
        },
    };
    let seg_start = first + p_len;
    let seg_end = match find_first(log, marker, seg_start, s_len, p_len) {
        Some(next) => next,
        None => s_len,
    };
    let ghost segment = log@.subrange(seg_start as int, seg_end as int);
    let trim_start = skip_spaces_exec(log, seg_start, seg_end);
    let trim_end = last_non_space_exec(log, seg_start, seg_end);
    proof {
        lemma_skip_spaces_shift(log@, seg_start as int, seg_end as int, seg_start as int);
    }
    if trim_start >= trim_end {
        proof {
            assert(trimmed(segment) =~= Seq::<char>::empty());
            assert(parse_i64(trimmed(segment)) is None);
        }
        return None;
    }
    let r = parse_i64_range(log, trim_start, trim_end);
    proof {
        assert(log@.subrange(trim_start as int, trim_end as int) =~= trimmed(segment));
    }
    r
}

/// The position after the last non-whitespace character in
/// `[start, end)`, or `start` when there is none; positions are absolute.
fn last_non_space_exec(s: &str, start: usize, end: usize) -> (r: usize)
    requires
        start <= end,
        end <= s@.len(),
    ensures
        r - start == last_non_space(s@.subrange(start as int, end as int), end - start),
        start <= r <= end,
{
    let ghost segment = s@.subrange(start as int, end as int);
    let mut i: usize = end;
    while i > start
        invariant
            start <= i <= end,
            end <= s@.len(),
            segment =~= s@.subrange(start as int, end as int),
            last_non_space(segment, (end - start) as int) == last_non_space(
                segment,
                (i - start) as int,
            ),
        decreases i,
    {
        if !is_space_char(s.get_char(i - 1)) {
            return i;
        }
        i = i - 1;
    }
    start
}

/// Skipping whitespace inside a slice equals skipping over the same
/// absolute range of the whole text.
proof fn lemma_skip_spaces_shift(s: Seq<char>, start: int, end: int, i: int)
    requires
        0 <= start <= i <= end <= s.len(),
    ensures
        skip_spaces(s.subrange(start, end), i - start, end - start) + start == skip_spaces(
            s,
            i,
            end,
        ),
    decreases end - i,
{
    if i < end {
        assert(s.subrange(start, end)[i - start] == s[i]);
        if is_space(s[i]) {
            lemma_skip_spaces_shift(s, start, end, i + 1);
        }
    }
}


/// Configuration of the transaction-monitoring service, as plain values.
#[derive(Clone, Debug)]
pub struct Config {
    pub database_url: String,
    pub helius_rpc: String,
    pub helius_webhook_secret: String,
    pub strategy_registry_program_id: String,
    pub execution_engine_program_id: String,
}

/// Execution metadata of an observed transaction: an error marker when
/// it failed, its log lines, and the fee it paid.
#[derive(Clone, Debug)]
pub struct HeliusMeta {
    pub err: Option<String>,
    pub log_messages: Option<Vec<String>>,
    pub fee: Option<u64>,
}

/// The message part of an observed transaction.
#[derive(Clone, Debug)]
pub struct HeliusMessage {
    pub account_keys: Option<Vec<String>>,
}

/// The payload part of an observed transaction.
#[derive(Clone, Debug)]
pub struct HeliusTransactionData {
    pub message: Option<HeliusMessage>,
}

/// One observed transaction.
#[derive(Clone, Debug)]
pub struct HeliusTransaction {
    pub signature: String,
    pub slot: u64,
    pub block_time: Option<i64>,
    pub meta: Option<HeliusMeta>,
    pub transaction: Option<HeliusTransactionData>,
}

/// What the monitor reports about one observed execution.
#[derive(Clone, Debug)]
pub struct ExecutionAlert {
    pub signature: String,
    pub strategy_address: String,
    pub executor: String,
    pub success: bool,
    pub profit_lamports: Option<i64>,
    pub error: Option<String>,
    pub timestamp: i64,
}

/// The row the execution sink persists.
#[derive(Clone, Debug)]
pub struct ExecutionRecord {
    pub signature: String,
    pub strategy_id: Option<String>,
    pub executor: String,
    pub profit_lamports: i64,
    pub gas_used: i32,
    pub success: bool,
}

/// The strategy address the logs name: the token of the last log line
/// that yields one for the `Strategy:` marker.
pub open spec fn scan_strategy(logs: Seq<String>) -> Option<Seq<char>>
    decreases logs.len(),
{
    if logs.len() == 0 {
        None
    } else {
        match extract_token(logs.last()@, "Strategy:"@) {
            Some(token) => Some(token),
            None => scan_strategy(logs.drop_last()),
        }
    }
}

/// The executor the logs name, for the `Executor:` marker.
pub open spec fn scan_executor(logs: Seq<String>) -> Option<Seq<char>>
    decreases logs.len(),
{
    if logs.len() == 0 {
        None
    } else {
        match extract_token(logs.last()@, "Executor:"@) {
            Some(token) => Some(token),
            None => scan_executor(logs.drop_last()),
        }
    }
}

/// The profit the logs report: the value of the last log line whose
/// `Profit:` marker is followed by a readable number.
pub open spec fn scan_profit(logs: Seq<String>) -> Option<i64>
    decreases logs.len(),
{
    if logs.len() == 0 {
        None
    } else {
        match profit_of_log(logs.last()@) {
            Some(profit) => Some(profit),
            None => scan_profit(logs.drop_last()),
        }
    }
}

/// The last log line that mentions an error.
pub open spec fn scan_error(logs: Seq<String>) -> Option<Seq<char>>
    decreases logs.len(),
{
    if logs.len() == 0 {
        None
    } else if contains_seq(logs.last()@, "Error:"@) || contains_seq(logs.last()@, "failed"@) {
        Some(logs.last()@)
    } else {
        scan_error(logs.drop_last())
    }
}

/// The log lines of a transaction, where it carries any.
pub open spec fn spec_tx_logs(tx: HeliusTransaction) -> Option<Seq<String>> {
    match tx.meta {
        Some(meta) => match meta.log_messages {
            Some(logs) => Some(logs@),
            None => None,
        },
        None => None,
    }
}

/// Whether the transaction succeeded: no error marker in its metadata.
pub open spec fn spec_tx_success(tx: HeliusTransaction) -> bool {
    match tx.meta {
        Some(meta) => meta.err is None,
        None => true,
    }
}

/// The transaction's time, zero when it carries none.
pub open spec fn spec_tx_timestamp(tx: HeliusTransaction) -> int {
    match tx.block_time {
        Some(t) => t as int,
        None => 0,
    }
}

/// The first account key of the transaction, the fallback for the
/// executor when the logs do not name one.
pub open spec fn spec_fallback_executor(tx: HeliusTransaction) -> Option<Seq<char>> {
    match tx.transaction {
        Some(data) => match data.message {
            Some(message) => match message.account_keys {
                Some(keys) => if keys@.len() > 0 {
                    Some(keys@[0]@)
                } else {
                    None
                },
                None => None,
            },
            None => None,
        },
        None => None,
    }
}

/// What `parse_execution_transaction` reports for a transaction that
/// carries logs.
pub open spec fn spec_alert_matches(tx: HeliusTransaction, logs: Seq<String>, r: Option<
    ExecutionAlert,
>) -> bool {
    let strategy = scan_strategy(logs);
    let named_executor = scan_executor(logs);
    let executor = if named_executor is Some {
        named_executor
    } else {
        spec_fallback_executor(tx)
    };
    if strategy is Some || executor is Some {
        match r {
            Some(alert) => {
                &&& alert.signature@ == tx.signature@
                &&& match strategy {
                    Some(token) => alert.strategy_address@ == token,
                    None => alert.strategy_address@ == "unknown"@,
                }
                &&& match executor {
                    Some(token) => alert.executor@ == token,
                    None => alert.executor@ == "unknown"@,
                }
                &&& alert.success == spec_tx_success(tx)
                &&& alert.profit_lamports == scan_profit(logs)
                &&& match scan_error(logs) {
                    Some(line) => alert.error is Some && alert.error->0@ == line,
                    None => alert.error is None,
                }
                &&& alert.timestamp == spec_tx_timestamp(tx)
            },
            None => false,
        }
    } else {
        r is None
    }
}

/// Read an execution alert out of one observed transaction: the last
/// strategy address, executor, profit and error line its logs name, the
/// first account key standing in for a missing executor. A transaction
/// without logs, or whose logs name neither a strategy nor an executor,
/// yields nothing.
pub fn parse_execution_transaction(tx: &HeliusTransaction) -> (r: Option<ExecutionAlert>)
    ensures
        match spec_tx_logs(*tx) {
            Some(logs) => spec_alert_matches(*tx, logs, r),
            None => r is None,
        },
{
    let meta = match &tx.meta {
        Some(meta) => meta,
        None => {
            return None;
        },
    };
    let success = match &meta.err {
        Some(_) => false,
        None => true,
    };
    let logs = match &meta.log_messages {
        Some(logs) => logs,
        None => {
            return None;
        },
    };
    let mut strategy_address: Option<String> = None;
    let mut executor: Option<String> = None;
    let mut profit_lamports: Option<i64> = None;
    let mut error_msg: Option<String> = None;
    let mut i: usize = 0;
    while i < logs.len()
        invariant
            i <= logs@.len(),
            opt_string_view(strategy_address) == scan_strategy(logs@.subrange(0, i as int)),
            opt_string_view(executor) == scan_executor(logs@.subrange(0, i as int)),
            profit_lamports == scan_profit(logs@.subrange(0, i as int)),
            opt_string_view(error_msg) == scan_error(logs@.subrange(0, i as int)),
        decreases logs@.len() - i,
    {
        let ghost before = logs@.subrange(0, i as int);
        let ghost after = logs@.subrange(0, i + 1);
        proof {
            assert(after.drop_last() =~= before);
            assert(after.last() == logs@[i as int]);
        }
        let log = &logs[i];
        match extract_address_from_log(log.as_str(), "Strategy:") {
            Some(address) => {
                strategy_address = Some(address);
            },
            None => {},
        }
        match extract_address_from_log(log.as_str(), "Executor:") {
            Some(address) => {
                executor = Some(address);
            },
            None => {},
        }
        match parse_profit_from_log(log.as_str()) {
            Some(profit) => {
                profit_lamports = Some(profit);
            },
            None => {},
        }
        if contains_marker(log.as_str(), "Error:") || contains_marker(log.as_str(), "failed") {
            error_msg = Some(log.clone());
        }
        i = i + 1;
    }
    proof {
        assert(logs@.subrange(0, logs@.len() as int) =~= logs@);
    }
    if executor.is_none() {
        match &tx.transaction {
            Some(data) => match &data.message {
                Some(message) => match &message.account_keys {
                    Some(keys) => {
                        if keys.len() > 0 {
                            executor = Some(keys[0].clone());
                        }
                    },
                    None => {},
                },
                None => {},
            },
            None => {},
        }
    }
    if strategy_address.is_some() || executor.is_some() {
        Some(ExecutionAlert {
            signature: tx.signature.clone(),
            strategy_address: match strategy_address {
                Some(address) => address,
                None => String::from_str("unknown"),
            },
            executor: match executor {
                Some(address) => address,
                None => String::from_str("unknown"),
            },
            success,
            profit_lamports,
            error: error_msg,
            timestamp: match tx.block_time {
                Some(t) => t,
                None => 0,
            },
        })
    } else {
        None
    }
}

/// The view of an optional string.
pub open spec fn opt_string_view(o: Option<String>) -> Option<Seq<char>> {
    match o {
        Some(s) => Some(s@),
        None => None,
    }
}

/// Whether any of the transaction's account keys is one of the two
/// protocol program ids.
pub fn transaction_involves_programs(keys: &Vec<String>, registry_id: &String, engine_id:
    &String) -> (r: bool)
    ensures
        r == exists|i: int|
            0 <= i < keys@.len() && ((#[trigger] keys@[i])@ == registry_id@ || keys@[i]@
                == engine_id@),
{
    let mut i: usize = 0;
    while i < keys.len()
        invariant
            i <= keys@.len(),
            forall|j: int|
                0 <= j < i ==> !((#[trigger] keys@[j])@ == registry_id@ || keys@[j]@
                    == engine_id@),
        decreases keys@.len() - i,
    {
        if keys[i].eq(registry_id) || keys[i].eq(engine_id) {
            proof {
                assert((keys@[i as int])@ == registry_id@ || (keys@[i as int])@ == engine_id@);
            }
            return true;
        }
        i = i + 1;
    }
    false
}


/// The row the sink persists for one alert: profit defaults to zero when
/// the logs named none, and the fee is carried as the narrower column
/// type, truncated.
pub fn build_execution_record(alert: &ExecutionAlert, strategy_id: Option<String>, fee: Option<
    u64,
>) -> (r: ExecutionRecord)
    ensures
        r.signature@ == alert.signature@,
        r.strategy_id == strategy_id,
        r.executor@ == alert.executor@,
        r.profit_lamports == (match alert.profit_lamports {
            Some(profit) => profit,
            None => 0,
        }),
        r.gas_used == (match fee {
            Some(f) => f as i32,
            None => 0,
        }),
        r.success == alert.success,
{
    ExecutionRecord {
        signature: alert.signature.clone(),
        strategy_id,
        executor: alert.executor.clone(),
        profit_lamports: match alert.profit_lamports {
            Some(profit) => profit,
            None => 0,
        },
        gas_used: match fee {
            Some(f) => #[verifier::truncate] (f as i32),
            None => 0,
        },
        success: alert.success,
    }
}
} // verus!
