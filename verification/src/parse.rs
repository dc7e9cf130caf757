//! Symbolic line addresses and their resolution against the buffer and the
//! session state.
//!
//! An [`Addr`] names a single line: an absolute number, the end of the
//! buffer, the cursor, or a named mark. A [`LineRange`] pairs two optional
//! addresses with a separator and describes an inclusive span. Resolution
//! maps them to absolute 0-based indices; it does not itself enforce that a
//! resolved range is within bounds or ordered — the command executor guards
//! that.

use vstd::prelude::*;

use crate::Buffer;
use crate::Config;
use crate::errors::EdError;

verus! {

/// The primary part of an address: a 1-based line number, the end of the
/// buffer (`$`), the cursor (`.`), or a mark (`'x`).
#[derive(Debug, PartialEq, Clone, Copy)]
pub enum LineAddr {
    Number(u64),
    DollarSign,
    Period,
    Mark(char),
}

/// A `+`/`-` decoration on an address. It is recognized by the grammar but
/// deliberately not applied during resolution; signed-offset semantics would
/// be an explicit extension, never a silent one.
#[derive(Debug, PartialEq, Clone, Copy)]
pub enum Modifier {
    PrefixPlus,
    SuffixPlus(Option<u64>),
    PrefixMinus,
    SuffixMinus(Option<u64>),
}

/// A symbolic reference to a single line: a primary address and an optional
/// modifier.
#[derive(Debug, PartialEq, Clone, Copy)]
pub struct Addr {
    pub primary: LineAddr,
    pub modifier: Option<Modifier>,
}

/// The separator of a range. Both separators currently resolve identically;
/// the distinction is kept so that a later product decision on `;` semantics
/// needs no grammar change.
#[derive(Debug, PartialEq, Clone, Copy)]
pub enum Mode {
    Comma,
    Semicolon,
}

/// A pair of optional addresses plus a separator, describing an inclusive
/// span of lines. A missing side defaults per call site: line 1 and `$` for
/// save-like commands, the current line for print-, delete- and change-like
/// commands.
#[derive(Debug, PartialEq, Clone, Copy)]
pub struct LineRange(pub Option<Addr>, pub Mode, pub Option<Addr>);

/// The message carried by a failed mark lookup.
pub open spec fn mark_not_found_msg() -> Seq<char> {
    "Mark not found"@
}

/// What a single address resolves to: `None` exactly when it names a mark
/// that is not set. The `+`/`-` modifier has no effect on the value.
pub open spec fn spec_resolve_addr(
    a: Addr,
    buflen: int,
    cur: Option<usize>,
    marks: Map<u32, usize>,
) -> Option<int> {
    match a.primary {
        LineAddr::Number(n) => Some(if n > 0 { n - 1 } else { 0 }),
        LineAddr::DollarSign => Some(if buflen > 1 { buflen - 1 } else { 0 }),
        LineAddr::Period => Some(
            match cur {
                Some(i) => i as int,
                None => 0,
            },
        ),
        LineAddr::Mark(c) => if marks.contains_key(c as u32) {
            Some(marks[c as u32] as int)
        } else {
            None
        },
    }
}

/// A numeric address small enough that its resolved index fits the machine.
pub open spec fn addr_fits(a: Addr) -> bool {
    a.primary matches LineAddr::Number(n) ==> n <= usize::MAX as u64
}

impl Addr {
    pub fn new(line_addr: LineAddr, modifier: Option<Modifier>) -> (a: Addr)
        ensures
            a == (Addr { primary: line_addr, modifier }),
    {
        Addr { primary: line_addr, modifier }
    }

    /// Map this address to an absolute 0-based index, per
    /// [`spec_resolve_addr`]. A missing mark is the one failure; bounds are
    /// not checked here.
    pub fn resolve(self, buffer: &Buffer, config: &Config) -> (r: Result<usize, EdError>)
        requires
            addr_fits(self),
        ensures
            (match spec_resolve_addr(
                self,
                buffer@.len() as int,
                config.current_index,
                config.marks@,
            ) {
                Some(i) => r matches Ok(v) && v as int == i,
                None => r matches Err(e) && (e matches EdError::Msg(m) && m@
                    == mark_not_found_msg()),
            }),
    {
        match self.primary {
            LineAddr::Number(n) => {
                if n > 0 {
                    Ok((n - 1) as usize)
                } else {
                    Ok(0)
                }
            },
            LineAddr::DollarSign => {
                if buffer.len() > 1 {
                    Ok(buffer.len() - 1)
                } else {
                    Ok(0)
                }
            },
            LineAddr::Period => {
                match config.current_index {
                    Some(i) => Ok(i),
                    None => Ok(0),
                }
            },
            LineAddr::Mark(c) => {
                match config.marks.get(&(c as u32)) {
                    Some(u) => Ok(*u),
                    None => Err(EdError::Msg("Mark not found".to_owned())),
                }
            },
        }
    }

    pub fn number(num: u64) -> (a: Addr)
        ensures
            a == (Addr { primary: LineAddr::Number(num), modifier: None }),
    {
        Addr::new(LineAddr::Number(num), None)
    }

    pub fn dollar_sign() -> (a: Addr)
        ensures
            a == (Addr { primary: LineAddr::DollarSign, modifier: None }),
    {
        Addr::new(LineAddr::DollarSign, None)
    }

    pub fn period() -> (a: Addr)
        ensures
            a == (Addr { primary: LineAddr::Period, modifier: None }),
    {
        Addr::new(LineAddr::Period, None)
    }

    pub fn mark(c: char) -> (a: Addr)
        ensures
            a == (Addr { primary: LineAddr::Mark(c), modifier: None }),
    {
        Addr::new(LineAddr::Mark(c), None)
    }
}

/// The range a range-taking command falls back to when none is written:
/// the current line alone.
pub open spec fn spec_current_line() -> LineRange {
    LineRange(
        Some(Addr { primary: LineAddr::Period, modifier: None }),
        Mode::Comma,
        Some(Addr { primary: LineAddr::Period, modifier: None }),
    )
}

/// The range a save-like command falls back to when none is written: the
/// whole buffer.
pub open spec fn spec_everything() -> LineRange {
    LineRange(
        Some(Addr { primary: LineAddr::Number(1), modifier: None }),
        Mode::Comma,
        Some(Addr { primary: LineAddr::DollarSign, modifier: None }),
    )
}

/// The start address of a range whose left side is missing: line 1.
pub open spec fn default_start_addr() -> Addr {
    Addr { primary: LineAddr::Number(1), modifier: None }
}

/// The end address of a range whose right side is missing: `$`.
pub open spec fn default_end_addr() -> Addr {
    Addr { primary: LineAddr::DollarSign, modifier: None }
}

/// What a range resolves to: both sides independently, missing sides
/// defaulting to line 1 and `$`. `None` exactly when a side names a mark
/// that is not set.
pub open spec fn spec_resolve_range(
    r: LineRange,
    buflen: int,
    cur: Option<usize>,
    marks: Map<u32, usize>,
) -> Option<(int, int)> {
    let start_addr = match r.0 {
        Some(a) => a,
        None => default_start_addr(),
    };
    let end_addr = match r.2 {
        Some(a) => a,
        None => default_end_addr(),
    };
    match spec_resolve_addr(start_addr, buflen, cur, marks) {
        Some(s) => match spec_resolve_addr(end_addr, buflen, cur, marks) {
            Some(e) => Some((s, e)),
            None => None,
        },
        None => None,
    }
}

/// Both addresses of the range, if present, have machine-sized numbers.
pub open spec fn range_fits(r: LineRange) -> bool {
    &&& (r.0 matches Some(a) ==> addr_fits(a))
    &&& (r.2 matches Some(a) ==> addr_fits(a))
}

impl LineRange {
    /// The whole buffer: line 1 through `$`.
    pub fn everything() -> (r: LineRange)
        ensures
            r == (LineRange(
                Some(Addr { primary: LineAddr::Number(1), modifier: None }),
                Mode::Comma,
                Some(Addr { primary: LineAddr::DollarSign, modifier: None }),
            )),
    {
        LineRange(Some(Addr::number(1)), Mode::Comma, Some(Addr::dollar_sign()))
    }

    /// The current line alone: `.` through `.`.
    pub fn current_line() -> (r: LineRange)
        ensures
            r == (LineRange(
                Some(Addr { primary: LineAddr::Period, modifier: None }),
                Mode::Comma,
                Some(Addr { primary: LineAddr::Period, modifier: None }),
            )),
    {
        LineRange(Some(Addr::period()), Mode::Comma, Some(Addr::period()))
    }

    /// Map this range to an inclusive pair of absolute indices, per
    /// [`spec_resolve_range`]. Resolution does not enforce that the pair is
    /// ordered or within bounds; the executor guards that.
    pub fn resolve(self, buffer: &Buffer, config: &Config) -> (r: Result<(usize, usize), EdError>)
        requires
            range_fits(self),
        ensures
            (match spec_resolve_range(
                self,
                buffer@.len() as int,
                config.current_index,
                config.marks@,
            ) {
                Some((s, e)) => r matches Ok((rs, re)) && rs as int == s && re as int == e,
                None => r matches Err(err) && (err matches EdError::Msg(m) && m@
                    == mark_not_found_msg()),
            }),
    {
        let start_addr = match self.0 {
            Some(a) => a,
            None => Addr::number(1),
        };
        let end_addr = match self.2 {
            Some(a) => a,
            None => Addr::dollar_sign(),
        };
        let s = start_addr.resolve(buffer, config)?;
        let e = end_addr.resolve(buffer, config)?;
        Ok((s, e))
    }
}

/// Law: a numeric address `n` resolves to `max(n, 1) - 1`, for every buffer
/// length and session state.
pub proof fn lemma_number_resolves(
    n: u64,
    buflen: int,
    cur: Option<usize>,
    marks: Map<u32, usize>,
)
    ensures
        spec_resolve_addr(Addr { primary: LineAddr::Number(n), modifier: None }, buflen, cur, marks)
            == Some(vstd::math::max(n as int, 1) - 1),
{
}

/// Law: `$` resolves to `L - 1` on a buffer of length `L > 1`, and to `0`
/// otherwise, for every session state.
pub proof fn lemma_dollar_resolves(
    buflen: int,
    cur: Option<usize>,
    marks: Map<u32, usize>,
)
    ensures
        spec_resolve_addr(
            Addr { primary: LineAddr::DollarSign, modifier: None },
            buflen,
            cur,
            marks,
        ) == Some(if buflen > 1 { buflen - 1 } else { 0int }),
{
}

/// Law: a mark set at index `i` resolves to `i`, whatever the buffer looks
/// like by the time it is looked up; edits do not re-aim marks.
pub proof fn lemma_mark_resolves_stale(
    c: char,
    i: usize,
    buflen: int,
    cur: Option<usize>,
    marks: Map<u32, usize>,
)
    requires
        marks.contains_key(c as u32),
        marks[c as u32] == i,
    ensures
        spec_resolve_addr(Addr { primary: LineAddr::Mark(c), modifier: None }, buflen, cur, marks)
            == Some(i as int),
{
}

} // verus!
