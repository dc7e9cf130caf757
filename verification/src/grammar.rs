//! The command grammar: a pure function from one trimmed input line to a
//! recognized [`Command`], or failure.
//!
//! ```text
//! address := ['+'|'-'] (number | '.' | '$' | "'" lowercase-letter)
//! range   := [address] (','|';') [address]
//! ```
//!
//! A command is optionally prefixed by a range or by a single address; a lone
//! address before a range-taking command stands for the range it bounds on
//! both sides. Filename-bearing commands require whitespace before the
//! filename; its absence leaves the filename empty, to be resolved against
//! the session default later. `wq` is recognized before `w` so that the
//! longer literal wins — the classic prefix-collision hazard of this grammar.
//! A line is recognized only when it is consumed whole.
//!
//! The whole grammar is stated once more at the specification level
//! ([`spec_parse_line`]); the executable parser is proved to agree with it on
//! every line.

use vstd::prelude::*;
use vstd::string::StrSliceExecFns;

use crate::commands::{Command, CommandView};
use crate::parse::{Addr, LineAddr, LineRange, Mode, Modifier};

verus! {

/// The whitespace that separates a command from its filename.
pub open spec fn is_space(c: char) -> bool {
    c == ' ' || c == '\t' || c == '\r' || c == '\n'
}

/// A decimal digit.
pub open spec fn is_digit(c: char) -> bool {
    '0' as u32 <= c as u32 && c as u32 <= '9' as u32
}

/// A lowercase letter, the only legal mark name.
pub open spec fn is_lower(c: char) -> bool {
    'a' as u32 <= c as u32 && c as u32 <= 'z' as u32
}

/// The numeric value of a digit character.
pub open spec fn digit_val(c: char) -> int {
    c as u32 - '0' as u32
}

/// The position of the first non-digit at or after `i`.
pub open spec fn digits_end(s: Seq<char>, i: int) -> int
    decreases s.len() - i,
{
    if 0 <= i < s.len() && is_digit(s[i]) {
        digits_end(s, i + 1)
    } else {
        i
    }
}

/// The value of the digit run `s[i .. j)`.
pub open spec fn num_val(s: Seq<char>, i: int, j: int) -> int
    decreases j - i,
{
    if i < j {
        num_val(s, i, j - 1) * 10 + digit_val(s[j - 1])
    } else {
        0
    }
}

/// The position of the first non-space at or after `i`.
pub open spec fn skip_spaces(s: Seq<char>, i: int) -> int
    decreases s.len() - i,
{
    if 0 <= i < s.len() && is_space(s[i]) {
        skip_spaces(s, i + 1)
    } else {
        i
    }
}

/// The position after the last non-space strictly before `j`.
pub open spec fn rskip_spaces(s: Seq<char>, j: int) -> int
    decreases j,
{
    if 0 < j <= s.len() && is_space(s[j - 1]) {
        rskip_spaces(s, j - 1)
    } else {
        j
    }
}

/// `s` without its leading and trailing whitespace.
pub open spec fn spec_trim(s: Seq<char>) -> Seq<char> {
    let a = skip_spaces(s, 0);
    let b = rskip_spaces(s, s.len() as int);
    if a <= b {
        s.subrange(a, b)
    } else {
        Seq::empty()
    }
}

/// A primary address starting at `i`: its value and the position after it.
/// A digit run whose value does not fit `u64` is a failure, as is a `'` not
/// followed by a lowercase letter.
pub open spec fn spec_lineaddr_at(s: Seq<char>, i: int) -> Option<(LineAddr, int)> {
    if 0 <= i < s.len() {
        let c = s[i];
        if c == '.' {
            Some((LineAddr::Period, i + 1))
        } else if c == '$' {
            Some((LineAddr::DollarSign, i + 1))
        } else if c == '\'' {
            if i + 1 < s.len() && is_lower(s[i + 1]) {
                Some((LineAddr::Mark(s[i + 1]), i + 2))
            } else {
                None
            }
        } else if is_digit(c) {
            let j = digits_end(s, i);
            let v = num_val(s, i, j);
            if v <= u64::MAX {
                Some((LineAddr::Number(v as u64), j))
            } else {
                None
            }
        } else {
            None
        }
    } else {
        None
    }
}

/// An address starting at `i`: an optional `+`/`-` prefix modifier and a
/// primary address. A modifier not followed by a primary address fails.
pub open spec fn spec_addr_at(s: Seq<char>, i: int) -> Option<(Addr, int)> {
    let m: Option<Modifier> = if 0 <= i < s.len() && s[i] == '+' {
        Some(Modifier::PrefixPlus)
    } else if 0 <= i < s.len() && s[i] == '-' {
        Some(Modifier::PrefixMinus)
    } else {
        None
    };
    let k: int = if m is Some {
        i + 1
    } else {
        i
    };
    match spec_lineaddr_at(s, k) {
        Some((la, j)) => Some((Addr { primary: la, modifier: m }, j)),
        None => None,
    }
}

/// What may stand before the command letter: nothing, a single address, or a
/// range.
#[derive(Debug, PartialEq, Clone, Copy)]
pub enum Prefix {
    Empty,
    Single(Addr),
    Span(LineRange),
}

/// The longest prefix readable from the start of the line, and the position
/// after it. An address followed by `,` or `;` opens a range whose sides may
/// each be missing; an address alone is a single-address prefix; anything
/// else leaves the line untouched.
pub open spec fn spec_prefix_at(s: Seq<char>) -> (Prefix, int) {
    let first = spec_addr_at(s, 0);
    let o1: Option<Addr> = match first {
        Some((a, _)) => Some(a),
        None => None,
    };
    let p: int = match first {
        Some((_, j)) => j,
        None => 0,
    };
    if 0 <= p < s.len() && (s[p] == ',' || s[p] == ';') {
        let mode = if s[p] == ',' {
            Mode::Comma
        } else {
            Mode::Semicolon
        };
        match spec_addr_at(s, p + 1) {
            Some((a2, q)) => (Prefix::Span(LineRange(o1, mode, Some(a2))), q),
            None => (Prefix::Span(LineRange(o1, mode, None)), p + 1),
        }
    } else {
        match o1 {
            Some(a) => (Prefix::Single(a), p),
            None => (Prefix::Empty, 0),
        }
    }
}

/// The range a prefix hands to a range-taking command: a lone address stands
/// for the range it bounds on both sides.
pub open spec fn prefix_as_range(pre: Prefix) -> Option<LineRange> {
    match pre {
        Prefix::Empty => None,
        Prefix::Single(a) => Some(LineRange(Some(a), Mode::Comma, Some(a))),
        Prefix::Span(r) => Some(r),
    }
}

/// The address a prefix hands to an address-taking command; a range prefix
/// is rejected there.
pub open spec fn prefix_as_addr(pre: Prefix) -> Option<Option<Addr>> {
    match pre {
        Prefix::Empty => Some(None),
        Prefix::Single(a) => Some(Some(a)),
        Prefix::Span(_) => None,
    }
}

/// The optional filename tail after a command letter at `i`: the line may
/// end (no filename), or whitespace must separate the rest of the line (the
/// filename, possibly empty). Anything else rejects the line.
pub open spec fn spec_name_tail(s: Seq<char>, i: int) -> Option<Option<Seq<char>>> {
    if i == s.len() {
        Some(None)
    } else if 0 <= i < s.len() && is_space(s[i]) {
        Some(Some(s.subrange(skip_spaces(s, i), s.len() as int)))
    } else {
        None
    }
}

/// The required filename tail after a command letter at `i`: whitespace and
/// the rest of the line. A line that ends right after the command letter is
/// rejected.
pub open spec fn spec_req_name_tail(s: Seq<char>, i: int) -> Option<Seq<char>> {
    if 0 <= i < s.len() && is_space(s[i]) {
        Some(s.subrange(skip_spaces(s, i), s.len() as int))
    } else {
        None
    }
}

/// The grammar, whole: which command (if any) a trimmed line denotes.
pub open spec fn spec_parse_line(s: Seq<char>) -> Option<CommandView> {
    let pr = spec_prefix_at(s);
    let pre = pr.0;
    let i = pr.1;
    if !(0 <= i < s.len()) {
        None
    } else if s[i] == 'p' {
        if i + 1 == s.len() {
            Some(CommandView::Print(prefix_as_range(pre)))
        } else {
            None
        }
    } else if s[i] == 'n' {
        if i + 1 == s.len() {
            Some(CommandView::PrintNumbered(prefix_as_range(pre)))
        } else {
            None
        }
    } else if s[i] == 'd' {
        if i + 1 == s.len() {
            Some(CommandView::Delete(prefix_as_range(pre)))
        } else {
            None
        }
    } else if s[i] == 'c' {
        if i + 1 == s.len() {
            Some(CommandView::ChangeText(prefix_as_range(pre)))
        } else {
            None
        }
    } else if s[i] == 'a' {
        match prefix_as_addr(pre) {
            Some(ad) => if i + 1 == s.len() {
                Some(CommandView::AppendText(ad))
            } else {
                None
            },
            None => None,
        }
    } else if s[i] == 'i' {
        match prefix_as_addr(pre) {
            Some(ad) => if i + 1 == s.len() {
                Some(CommandView::InsertText(ad))
            } else {
                None
            },
            None => None,
        }
    } else if s[i] == 'k' {
        match prefix_as_addr(pre) {
            Some(ad) => if i + 1 < s.len() && is_lower(s[i + 1]) && i + 2 == s.len() {
                Some(CommandView::MarkLine(ad, s[i + 1]))
            } else {
                None
            },
            None => None,
        }
    } else if s[i] == 'w' {
        if i + 1 < s.len() && s[i + 1] == 'q' {
            match spec_req_name_tail(s, i + 2) {
                Some(f) => Some(CommandView::SaveAndQuit(prefix_as_range(pre), Some(f))),
                None => None,
            }
        } else {
            match spec_name_tail(s, i + 1) {
                Some(f) => Some(CommandView::SaveFile(prefix_as_range(pre), f)),
                None => None,
            }
        }
    } else if s[i] == 'W' {
        match spec_req_name_tail(s, i + 1) {
            Some(f) => Some(CommandView::SaveAppend(prefix_as_range(pre), Some(f))),
            None => None,
        }
    } else if pre is Empty {
        if s[i] == 'q' {
            if i + 1 == s.len() {
                Some(CommandView::Quit)
            } else {
                None
            }
        } else if s[i] == 'Q' {
            if i + 1 == s.len() {
                Some(CommandView::HardQuit)
            } else {
                None
            }
        } else if s[i] == 'P' {
            if i + 1 == s.len() {
                Some(CommandView::ToggleShowPrompt)
            } else {
                None
            }
        } else if s[i] == 'h' {
            if i + 1 == s.len() {
                Some(CommandView::LastError)
            } else {
                None
            }
        } else if s[i] == 'H' {
            if i + 1 == s.len() {
                Some(CommandView::ToggleErrorExpl)
            } else {
                None
            }
        } else if s[i] == 'f' {
            match spec_name_tail(s, i + 1) {
                Some(Some(f)) => Some(CommandView::SetDefaultFilename(f)),
                Some(None) => Some(CommandView::GetDefaultFilename),
                None => None,
            }
        } else if s[i] == 'e' {
            match spec_name_tail(s, i + 1) {
                Some(f) => Some(CommandView::EditFile(f)),
                None => None,
            }
        } else if s[i] == 'E' {
            match spec_name_tail(s, i + 1) {
                Some(f) => Some(CommandView::UncondEditFile(f)),
                None => None,
            }
        } else {
            None
        }
    } else {
        None
    }
}

fn is_space_c(c: char) -> (b: bool)
    ensures
        b == is_space(c),
{
    c == ' ' || c == '\t' || c == '\r' || c == '\n'
}

fn is_digit_c(c: char) -> (b: bool)
    ensures
        b == is_digit(c),
{
    let u = c as u32;
    '0' as u32 <= u && u <= '9' as u32
}

fn is_lower_c(c: char) -> (b: bool)
    ensures
        b == is_lower(c),
{
    let u = c as u32;
    'a' as u32 <= u && u <= 'z' as u32
}

proof fn lemma_digits_end_exact(s: Seq<char>, i: int, j: int)
    requires
        0 <= i <= j <= s.len(),
        forall|k: int| i <= k < j ==> is_digit(s[k]),
        j == s.len() || !is_digit(s[j]),
    ensures
        digits_end(s, i) == j,
    decreases j - i,
{
    if i < j {
        lemma_digits_end_exact(s, i + 1, j);
    }
}

proof fn lemma_skip_spaces_exact(s: Seq<char>, i: int, j: int)
    requires
        0 <= i <= j <= s.len(),
        forall|k: int| i <= k < j ==> is_space(s[k]),
        j == s.len() || !is_space(s[j]),
    ensures
        skip_spaces(s, i) == j,
    decreases j - i,
{
    if i < j {
        lemma_skip_spaces_exact(s, i + 1, j);
    }
}

proof fn lemma_num_val_nonneg(s: Seq<char>, i: int, j: int)
    requires
        forall|k: int| i <= k < j ==> is_digit(s[k]),
    ensures
        num_val(s, i, j) >= 0,
    decreases j - i,
{
    if i < j {
        lemma_num_val_nonneg(s, i, j - 1);
    }
}

proof fn lemma_num_val_mono(s: Seq<char>, i: int, j1: int, j2: int)
    requires
        i <= j1 <= j2,
        forall|k: int| i <= k < j2 ==> is_digit(s[k]),
    ensures
        num_val(s, i, j1) <= num_val(s, i, j2),
    decreases j2 - j1,
{
    if j1 < j2 {
        lemma_num_val_mono(s, i, j1, j2 - 1);
        lemma_num_val_nonneg(s, i, j2 - 1);
    }
}

/// Read the digit run starting at `i` as a `u64`: its value and the position
/// after the run, or nothing when the value does not fit.
fn parse_number(s: &str, n: usize, i: usize) -> (r: Option<(u64, usize)>)
    requires
        n == s@.len(),
        i < n,
        is_digit(s@[i as int]),
    ensures
        (match r {
            Some((val, end)) => {
                &&& num_val(s@, i as int, digits_end(s@, i as int)) <= u64::MAX
                &&& val as int == num_val(s@, i as int, digits_end(s@, i as int))
                &&& end as int == digits_end(s@, i as int)
            },
            None => num_val(s@, i as int, digits_end(s@, i as int)) > u64::MAX,
        }),
{
    let mut j: usize = i;
    while j < n && is_digit_c(s.get_char(j))
        invariant
            n == s@.len(),
            i <= j <= n,
            forall|k: int| i <= k < j ==> is_digit(s@[k]),
        decreases n - j,
    {
        j = j + 1;
    }
    proof {
        lemma_digits_end_exact(s@, i as int, j as int);
    }
    let mut acc: u128 = 0;
    let mut k: usize = i;
    while k < j
        invariant
            n == s@.len(),
            i <= k <= j <= n,
            forall|kk: int| i <= kk < j ==> is_digit(s@[kk]),
            acc as int == num_val(s@, i as int, k as int),
            acc <= u64::MAX as u128,
            digits_end(s@, i as int) == j,
        decreases j - k,
    {
        let c = s.get_char(k);
        let d: u32 = c as u32 - '0' as u32;
        let next: u128 = acc * 10 + d as u128;
        if next > u64::MAX as u128 {
            proof {
                lemma_num_val_mono(s@, i as int, k as int + 1, j as int);
            }
            return None;
        }
        acc = next;
        k = k + 1;
    }
    Some((acc as u64, j))
}

/// Read a primary address starting at `i`, per [`spec_lineaddr_at`].
fn parse_lineaddr(s: &str, n: usize, i: usize) -> (r: Option<(LineAddr, usize)>)
    requires
        n == s@.len(),
        i <= n,
    ensures
        (match r {
            Some((la, j)) => spec_lineaddr_at(s@, i as int) == Some((la, j as int)),
            None => spec_lineaddr_at(s@, i as int) is None,
        }),
{
    if i >= n {
        return None;
    }
    let c = s.get_char(i);
    if c == '.' {
        Some((LineAddr::Period, i + 1))
    } else if c == '$' {
        Some((LineAddr::DollarSign, i + 1))
    } else if c == '\'' {
        if i + 1 < n && is_lower_c(s.get_char(i + 1)) {
            Some((LineAddr::Mark(s.get_char(i + 1)), i + 2))
        } else {
            None
        }
    } else if is_digit_c(c) {
        match parse_number(s, n, i) {
            Some((v, j)) => Some((LineAddr::Number(v), j)),
            None => None,
        }
    } else {
        None
    }
}

/// Read an address starting at `i`, per [`spec_addr_at`].
fn parse_addr(s: &str, n: usize, i: usize) -> (r: Option<(Addr, usize)>)
    requires
        n == s@.len(),
        i <= n,
    ensures
        (match r {
            Some((a, j)) => spec_addr_at(s@, i as int) == Some((a, j as int)),
            None => spec_addr_at(s@, i as int) is None,
        }),
{
    let m: Option<Modifier> = if i < n && s.get_char(i) == '+' {
        Some(Modifier::PrefixPlus)
    } else if i < n && s.get_char(i) == '-' {
        Some(Modifier::PrefixMinus)
    } else {
        None
    };
    let k: usize = if m.is_some() {
        i + 1
    } else {
        i
    };
    match parse_lineaddr(s, n, k) {
        Some((la, j)) => Some((Addr { primary: la, modifier: m }, j)),
        None => None,
    }
}

/// Read the optional prefix of the line, per [`spec_prefix_at`].
fn parse_prefix(s: &str, n: usize) -> (r: (Prefix, usize))
    requires
        n == s@.len(),
    ensures
        spec_prefix_at(s@) == (r.0, r.1 as int),
        r.1 <= n,
{
    let first = parse_addr(s, n, 0);
    let (o1, p): (Option<Addr>, usize) = match first {
        Some((a, j)) => (Some(a), j),
        None => (None, 0),
    };
    proof {
        if spec_addr_at(s@, 0) matches Some((a, j)) {
            lemma_addr_end_in_range(s@, 0);
        }
    }
    if p < n && (s.get_char(p) == ',' || s.get_char(p) == ';') {
        let mode = if s.get_char(p) == ',' {
            Mode::Comma
        } else {
            Mode::Semicolon
        };
        match parse_addr(s, n, p + 1) {
            Some((a2, q)) => {
                proof {
                    lemma_addr_end_in_range(s@, p + 1 as int);
                }
                (Prefix::Span(LineRange(o1, mode, Some(a2))), q)
            },
            None => (Prefix::Span(LineRange(o1, mode, None)), p + 1),
        }
    } else {
        match o1 {
            Some(a) => (Prefix::Single(a), p),
            None => (Prefix::Empty, 0),
        }
    }
}

proof fn lemma_digits_end_in_range(s: Seq<char>, i: int)
    requires
        0 <= i <= s.len(),
    ensures
        i <= digits_end(s, i) <= s.len(),
    decreases s.len() - i,
{
    if i < s.len() && is_digit(s[i]) {
        lemma_digits_end_in_range(s, i + 1);
    }
}

/// A successfully read primary address never runs past the end of the line
/// and consumes at least one character.
proof fn lemma_lineaddr_end_in_range(s: Seq<char>, k: int)
    requires
        0 <= k <= s.len(),
        spec_lineaddr_at(s, k) is Some,
    ensures
        (spec_lineaddr_at(s, k) matches Some((la, j)) ==> k < j <= s.len()),
{
    if k < s.len() && is_digit(s[k]) {
        lemma_digits_end_in_range(s, k + 1);
    }
}

/// A successfully read address never runs past the end of the line and
/// consumes at least one character.
proof fn lemma_addr_end_in_range(s: Seq<char>, i: int)
    requires
        0 <= i <= s.len(),
        spec_addr_at(s, i) is Some,
    ensures
        (spec_addr_at(s, i) matches Some((a, j)) ==> i < j <= s.len()),
{
    let k: int = if 0 <= i < s.len() && (s[i] == '+' || s[i] == '-') {
        i + 1
    } else {
        i
    };
    lemma_lineaddr_end_in_range(s, k);
}

proof fn lemma_rskip_spaces_exact(s: Seq<char>, j: int, b: int)
    requires
        0 <= b <= j <= s.len(),
        forall|k: int| b <= k < j ==> is_space(s[k]),
        b == 0 || !is_space(s[b - 1]),
    ensures
        rskip_spaces(s, j) == b,
    decreases j - b,
{
    if b < j {
        lemma_rskip_spaces_exact(s, j - 1, b);
    }
}

/// `s` without its leading and trailing whitespace, per [`spec_trim`].
pub fn trim_spaces(s: &str) -> (t: String)
    ensures
        t@ == spec_trim(s@),
{
    let n = s.unicode_len();
    let mut a: usize = 0;
    while a < n && is_space_c(s.get_char(a))
        invariant
            n == s@.len(),
            a <= n,
            forall|k: int| 0 <= k < a ==> is_space(s@[k]),
        decreases n - a,
    {
        a = a + 1;
    }
    proof {
        lemma_skip_spaces_exact(s@, 0, a as int);
    }
    let mut b: usize = n;
    while b > 0 && is_space_c(s.get_char(b - 1))
        invariant
            n == s@.len(),
            b <= n,
            forall|k: int| b <= k < n ==> is_space(s@[k]),
        decreases b,
    {
        b = b - 1;
    }
    proof {
        lemma_rskip_spaces_exact(s@, n as int, b as int);
    }
    if a <= b {
        s.substring_char(a, b).to_owned()
    } else {
        proof {
            assert(spec_trim(s@) =~= Seq::<char>::empty());
        }
        String::new()
    }
}

/// Read the optional filename tail after position `i`, per
/// [`spec_name_tail`].
fn name_tail(s: &str, n: usize, i: usize) -> (r: Option<Option<String>>)
    requires
        n == s@.len(),
        i <= n,
    ensures
        (match r {
            Some(Some(f)) => spec_name_tail(s@, i as int) == Some(Some(f@)),
            Some(None) => spec_name_tail(s@, i as int) == Some(Option::<Seq<char>>::None),
            None => spec_name_tail(s@, i as int) is None,
        }),
{
    if i == n {
        return Some(None);
    }
    if !is_space_c(s.get_char(i)) {
        return None;
    }
    let mut j: usize = i;
    while j < n && is_space_c(s.get_char(j))
        invariant
            n == s@.len(),
            i <= j <= n,
            forall|k: int| i <= k < j ==> is_space(s@[k]),
        decreases n - j,
    {
        j = j + 1;
    }
    proof {
        lemma_skip_spaces_exact(s@, i as int, j as int);
    }
    let f = s.substring_char(j, n).to_owned();
    Some(Some(f))
}

/// Read the required filename tail after position `i`, per
/// [`spec_req_name_tail`].
fn req_name_tail(s: &str, n: usize, i: usize) -> (r: Option<String>)
    requires
        n == s@.len(),
        i <= n,
    ensures
        (match r {
            Some(f) => spec_req_name_tail(s@, i as int) == Some(f@),
            None => spec_req_name_tail(s@, i as int) is None,
        }),
{
    if i == n {
        return None;
    }
    match name_tail(s, n, i) {
        Some(Some(f)) => Some(f),
        Some(None) => None,
        None => None,
    }
}

/// Parse one trimmed input line into the command it denotes, or fail.
///
/// The result agrees with [`spec_parse_line`] on the line's characters: this
/// one function fixes the whole surface syntax of the editor.
pub fn parse_line(s: &str) -> (r: Option<Command>)
    ensures
        (match r {
            Some(c) => spec_parse_line(s@) == Some(c@),
            None => spec_parse_line(s@) is None,
        }),
{
    let n = s.unicode_len();
    let (pre, i) = parse_prefix(s, n);
    if i >= n {
        return None;
    }
    let c = s.get_char(i);
    if c == 'p' {
        if i + 1 == n {
            Some(Command::Print(prefix_range(pre)))
        } else {
            None
        }
    } else if c == 'n' {
        if i + 1 == n {
            Some(Command::PrintNumbered(prefix_range(pre)))
        } else {
            None
        }
    } else if c == 'd' {
        if i + 1 == n {
            Some(Command::Delete(prefix_range(pre)))
        } else {
            None
        }
    } else if c == 'c' {
        if i + 1 == n {
            Some(Command::ChangeText(prefix_range(pre)))
        } else {
            None
        }
    } else if c == 'a' {
        match prefix_addr(pre) {
            Some(ad) => if i + 1 == n {
                Some(Command::AppendText(ad))
            } else {
                None
            },
            None => None,
        }
    } else if c == 'i' {
        match prefix_addr(pre) {
            Some(ad) => if i + 1 == n {
                Some(Command::InsertText(ad))
            } else {
                None
            },
            None => None,
        }
    } else if c == 'k' {
        match prefix_addr(pre) {
            Some(ad) => if i + 1 < n && is_lower_c(s.get_char(i + 1)) && i + 2 == n {
                Some(Command::MarkLine(ad, s.get_char(i + 1)))
            } else {
                None
            },
            None => None,
        }
    } else if c == 'w' {
        if i + 1 < n && s.get_char(i + 1) == 'q' {
            match req_name_tail(s, n, i + 2) {
                Some(f) => Some(Command::SaveAndQuit(prefix_range(pre), Some(f))),
                None => None,
            }
        } else {
            match name_tail(s, n, i + 1) {
                Some(f) => Some(Command::SaveFile(prefix_range(pre), f)),
                None => None,
            }
        }
    } else if c == 'W' {
        match req_name_tail(s, n, i + 1) {
            Some(f) => Some(Command::SaveAppend(prefix_range(pre), Some(f))),
            None => None,
        }
    } else if matches!(pre, Prefix::Empty) {
        if c == 'q' {
            if i + 1 == n {
                Some(Command::Quit)
            } else {
                None
            }
        } else if c == 'Q' {
            if i + 1 == n {
                Some(Command::HardQuit)
            } else {
                None
            }
        } else if c == 'P' {
            if i + 1 == n {
                Some(Command::ToggleShowPrompt)
            } else {
                None
            }
        } else if c == 'h' {
            if i + 1 == n {
                Some(Command::LastError)
            } else {
                None
            }
        } else if c == 'H' {
            if i + 1 == n {
                Some(Command::ToggleErrorExpl)
            } else {
                None
            }
        } else if c == 'f' {
            match name_tail(s, n, i + 1) {
                Some(Some(f)) => Some(Command::SetDefaultFilename(f)),
                Some(None) => Some(Command::GetDefaultFilename),
                None => None,
            }
        } else if c == 'e' {
            match name_tail(s, n, i + 1) {
                Some(f) => Some(Command::EditFile(f)),
                None => None,
            }
        } else if c == 'E' {
            match name_tail(s, n, i + 1) {
                Some(f) => Some(Command::UncondEditFile(f)),
                None => None,
            }
        } else {
            None
        }
    } else {
        None
    }
}

/// The range a prefix hands to a range-taking command, per
/// [`prefix_as_range`].
fn prefix_range(pre: Prefix) -> (r: Option<LineRange>)
    ensures
        r == prefix_as_range(pre),
{
    match pre {
        Prefix::Empty => None,
        Prefix::Single(a) => Some(LineRange(Some(a), Mode::Comma, Some(a))),
        Prefix::Span(r) => Some(r),
    }
}

/// The address a prefix hands to an address-taking command, per
/// [`prefix_as_addr`].
fn prefix_addr(pre: Prefix) -> (r: Option<Option<Addr>>)
    ensures
        r == prefix_as_addr(pre),
{
    match pre {
        Prefix::Empty => Some(None),
        Prefix::Single(a) => Some(Some(a)),
        Prefix::Span(_) => None,
    }
}

} // verus!
