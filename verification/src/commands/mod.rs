//! The closed set of editor commands and the executor that applies one to
//! the buffer and the session state.
//!
//! Each grammar production is one [`Command`] variant. The executor is a
//! single dispatch over this tag. Commands that need the outside world — the
//! lines of a text collection, a yes/no answer, a file's contents, a file
//! write — take those as plain values and hand requests back as an
//! [`Effect`], so that every decision and every buffer mutation stands here
//! while the surrounding program only moves bytes.

pub mod append_text;
pub mod change_text;

use vstd::prelude::*;

use crate::commands::append_text::{append_post, effective_addr};
use crate::commands::change_text::{change_post, effective_range};
use crate::errors::EdError;
use crate::grammar::{spec_trim, trim_spaces};
use crate::parse::{
    addr_fits, mark_not_found_msg, range_fits, spec_everything, spec_resolve_addr,
    spec_resolve_range, Addr, LineRange,
};
use crate::{cfg_same_except_cursor_dirty, insert_all, Buffer, Config};
use vstd::string::StrSliceExecFns;

verus! {

/// A recognized editor command, one variant per grammar production.
#[derive(Debug, PartialEq, Clone)]
pub enum Command {
    AppendText(Option<Addr>),
    ChangeText(Option<LineRange>),
    Delete(Option<LineRange>),
    EditFile(Option<String>),
    UncondEditFile(Option<String>),
    SetDefaultFilename(String),
    GetDefaultFilename,
    LastError,
    ToggleErrorExpl,
    InsertText(Option<Addr>),
    MarkLine(Option<Addr>, char),
    PrintNumbered(Option<LineRange>),
    Print(Option<LineRange>),
    ToggleShowPrompt,
    Quit,
    HardQuit,
    SaveFile(Option<LineRange>, Option<String>),
    SaveAndQuit(Option<LineRange>, Option<String>),
    SaveAppend(Option<LineRange>, Option<String>),
}

/// The mathematical shape of a [`Command`]: the same tags, with every string
/// payload abstracted to its sequence of characters. Contracts about parsing
/// speak of this type.
pub enum CommandView {
    AppendText(Option<Addr>),
    ChangeText(Option<LineRange>),
    Delete(Option<LineRange>),
    EditFile(Option<Seq<char>>),
    UncondEditFile(Option<Seq<char>>),
    SetDefaultFilename(Seq<char>),
    GetDefaultFilename,
    LastError,
    ToggleErrorExpl,
    InsertText(Option<Addr>),
    MarkLine(Option<Addr>, char),
    PrintNumbered(Option<LineRange>),
    Print(Option<LineRange>),
    ToggleShowPrompt,
    Quit,
    HardQuit,
    SaveFile(Option<LineRange>, Option<Seq<char>>),
    SaveAndQuit(Option<LineRange>, Option<Seq<char>>),
    SaveAppend(Option<LineRange>, Option<Seq<char>>),
}

/// The characters of an optional string payload.
pub open spec fn opt_view(s: Option<String>) -> Option<Seq<char>> {
    match s {
        Some(f) => Some(f@),
        None => None,
    }
}

impl View for Command {
    type V = CommandView;

    open spec fn view(&self) -> CommandView {
        match self {
            Command::AppendText(a) => CommandView::AppendText(*a),
            Command::ChangeText(r) => CommandView::ChangeText(*r),
            Command::Delete(r) => CommandView::Delete(*r),
            Command::EditFile(f) => CommandView::EditFile(opt_view(*f)),
            Command::UncondEditFile(f) => CommandView::UncondEditFile(opt_view(*f)),
            Command::SetDefaultFilename(f) => CommandView::SetDefaultFilename(f@),
            Command::GetDefaultFilename => CommandView::GetDefaultFilename,
            Command::LastError => CommandView::LastError,
            Command::ToggleErrorExpl => CommandView::ToggleErrorExpl,
            Command::InsertText(a) => CommandView::InsertText(*a),
            Command::MarkLine(a, c) => CommandView::MarkLine(*a, *c),
            Command::PrintNumbered(r) => CommandView::PrintNumbered(*r),
            Command::Print(r) => CommandView::Print(*r),
            Command::ToggleShowPrompt => CommandView::ToggleShowPrompt,
            Command::Quit => CommandView::Quit,
            Command::HardQuit => CommandView::HardQuit,
            Command::SaveFile(r, f) => CommandView::SaveFile(*r, opt_view(*f)),
            Command::SaveAndQuit(r, f) => CommandView::SaveAndQuit(*r, opt_view(*f)),
            Command::SaveAppend(r, f) => CommandView::SaveAppend(*r, opt_view(*f)),
        }
    }
}

/// What a completed command asks of the surrounding program: nothing, lines
/// for the output sink, a file to load, or a file write. The executor makes
/// every decision; the program only performs the transport and reports back
/// through [`Command::run`]'s companions [`edit_outcome`] and
/// [`save_outcome`].
#[derive(Debug, PartialEq, Clone)]
pub enum Effect {
    Nothing,
    Print(Vec<String>),
    PrintNumbered(Vec<(usize, String)>),
    LoadFile(String),
    Save(SaveRequest),
}

/// A fully decided file write: the target path, the exact lines to write —
/// each newline-terminated by the writer — whether to append rather than
/// truncate, and whether a successful write is followed by a quit.
#[derive(Debug, PartialEq, Clone)]
pub struct SaveRequest {
    pub path: String,
    pub lines: Vec<String>,
    pub append: bool,
    pub then_quit: bool,
}

/// How a requested file write went: written in full, creation of a missing
/// file refused at the prompt, or the file could not be opened.
#[derive(Debug, PartialEq, Clone, Copy)]
pub enum SaveResult {
    Written,
    CreateRefused,
    OpenFailed,
}

/// How a requested file load went: the file's lines, or one of the ways it
/// failed — missing file, open failure, read failure.
#[derive(Debug, PartialEq, Clone)]
pub enum LoadResult {
    Loaded(Vec<String>),
    Missing,
    OpenFailed,
    ReadFailed,
}

/// The filename a save resolves to, and the session after the lookup: an
/// explicit filename is used as given and — the first one ever given —
/// becomes the new default; a missing one falls back to the default.
pub open spec fn spec_get_filename(filename: Option<String>, cfg: Config) -> (
    Option<String>,
    Config,
) {
    match filename {
        Some(f) => (
            Some(f),
            if cfg.default_filename is None {
                Config { default_filename: Some(f), ..cfg }
            } else {
                cfg
            },
        ),
        None => (cfg.default_filename, cfg),
    }
}

/// Resolve the target filename of a save, per [`spec_get_filename`].
pub fn get_filename(filename: Option<String>, cfg: &mut Config) -> (r: Option<String>)
    ensures
        (r, *final(cfg)) == spec_get_filename(filename, *old(cfg)),
{
    let no_default = cfg.default_filename.is_none();
    match filename {
        Some(f) => {
            if no_default {
                cfg.default_filename = Some(f.clone());
            }
            Some(f)
        },
        None => {
            if no_default {
                None
            } else {
                cfg.default_filename.clone()
            }
        },
    }
}

/// Decide a quit: a clean session always exits; a dirty one exits only on an
/// affirmative answer to the unsaved-changes prompt, and otherwise continues
/// with nothing changed — the dirty flag included.
pub fn quit(cfg: &Config, confirmed: bool) -> (r: Result<(), EdError>)
    ensures
        !cfg.dirty ==> r == Err::<(), EdError>(EdError::Exit),
        cfg.dirty && confirmed ==> r == Err::<(), EdError>(EdError::Exit),
        cfg.dirty && !confirmed ==> r == Ok::<(), EdError>(()),
{
    if cfg.dirty {
        if confirmed {
            Err(EdError::Exit)
        } else {
            Ok(())
        }
    } else {
        Err(EdError::Exit)
    }
}

/// Record the result a file write came back with. A full write clears the
/// dirty flag and — when the save chained into a quit — raises the exit
/// signal, owed unconditionally since the session is clean by then. A
/// refusal to create the missing target is `Unknown`; an open failure is a
/// message error; both leave the session untouched.
pub fn save_outcome(cfg: &mut Config, result: SaveResult, then_quit: bool) -> (r: Result<
    (),
    EdError,
>)
    ensures
        result is Written ==> {
            &&& !final(cfg).dirty
            &&& *final(cfg) == (Config { dirty: false, ..*old(cfg) })
            &&& r == (if then_quit {
                Err::<(), EdError>(EdError::Exit)
            } else {
                Ok::<(), EdError>(())
            })
        },
        result is CreateRefused ==> r == Err::<(), EdError>(EdError::Unknown) && *final(cfg)
            == *old(cfg),
        result is OpenFailed ==> (r matches Err(e) && (e matches EdError::Msg(m) && m@
            == "Could not open file"@)) && *final(cfg) == *old(cfg),
{
    match result {
        SaveResult::Written => {
            cfg.dirty = false;
            if then_quit {
                Err(EdError::Exit)
            } else {
                Ok(())
            }
        },
        SaveResult::CreateRefused => Err(EdError::Unknown),
        SaveResult::OpenFailed => Err(EdError::Msg("Could not open file".to_owned())),
    }
}

/// Take in the result a file load came back with. Loaded lines replace the
/// buffer wholesale; the cursor rests on the last line (or is cleared when
/// the file was empty) and the dirty flag is cleared. A missing file is
/// `Unknown`; open and read failures are message errors; every failure
/// leaves buffer and session untouched.
pub fn edit_outcome(result: LoadResult, buffer: &mut Vec<String>, cfg: &mut Config) -> (r: Result<
    (),
    EdError,
>)
    ensures
        (result matches LoadResult::Loaded(lines) ==> {
            &&& r == Ok::<(), EdError>(())
            &&& final(buffer)@ == lines@
            &&& final(cfg).current_index == (if lines@.len() == 0 {
                Option::<usize>::None
            } else {
                Some(((lines@.len() - 1) as usize))
            })
            &&& !final(cfg).dirty
            &&& crate::cfg_same_except_cursor_dirty(*old(cfg), *final(cfg))
        }),
        result is Missing ==> r == Err::<(), EdError>(EdError::Unknown) && final(buffer)@ == old(
            buffer,
        )@ && *final(cfg) == *old(cfg),
        result is OpenFailed ==> (r matches Err(e) && (e matches EdError::Msg(m) && m@
            == "error opening file"@)) && final(buffer)@ == old(buffer)@ && *final(cfg) == *old(
            cfg,
        ),
        result is ReadFailed ==> (r matches Err(e) && (e matches EdError::Msg(m) && m@
            == "error reading from file"@)) && final(buffer)@ == old(buffer)@ && *final(cfg)
            == *old(cfg),
{
    match result {
        LoadResult::Loaded(lines) => {
            let len = lines.len();
            *buffer = lines;
            cfg.current_index = if len == 0 {
                None
            } else {
                Some(len - 1)
            };
            cfg.dirty = false;
            Ok(())
        },
        LoadResult::Missing => Err(EdError::Unknown),
        LoadResult::OpenFailed => Err(EdError::Msg("error opening file".to_owned())),
        LoadResult::ReadFailed => Err(EdError::Msg("error reading from file".to_owned())),
    }
}

/// What the session driver shows for a per-command outcome, and what it
/// records. `Unknown` is shown as `?`. A message error is stored as the last
/// error and shown verbatim only when error display is on, as `?` otherwise.
/// The exit signal shows nothing.
pub fn report_error(cfg: &mut Config, e: &EdError) -> (line: Option<String>)
    ensures
        e is Unknown ==> (line matches Some(s) && s@ == "?"@) && *final(cfg) == *old(cfg),
        (e matches EdError::Msg(m) ==> {
            &&& (line matches Some(s) && s@ == (if old(cfg).print_errors {
                m@
            } else {
                "?"@
            }))
            &&& *final(cfg) == (Config { last_error: Some(*m), ..*old(cfg) })
        }),
        e is Exit ==> line is None && *final(cfg) == *old(cfg),
{
    match e {
        EdError::Unknown => Some("?".to_owned()),
        EdError::Msg(m) => {
            let shown = if cfg.print_errors {
                m.clone()
            } else {
                "?".to_owned()
            };
            cfg.last_error = Some(m.clone());
            Some(shown)
        },
        EdError::Exit => None,
    }
}

impl Command {
    /// Whether this command enters text-collection mode: the program must
    /// gather lines up to a lone `.` before running it.
    pub fn collects_text(&self) -> (b: bool)
        ensures
            b == (self matches Command::AppendText(_) || self matches Command::ChangeText(_)
                || self matches Command::InsertText(_)),
    {
        matches!(
            self,
            Command::AppendText(_) | Command::ChangeText(_) | Command::InsertText(_)
        )
    }

    /// Whether this command must ask the user before proceeding: quitting or
    /// re-editing over unsaved changes. An edit with no filename to load —
    /// neither named nor defaulted — fails before the prompt would matter,
    /// so it asks nothing; the unconditional variants bypass the prompt by
    /// design.
    pub fn needs_confirmation(&self, cfg: &Config) -> (b: bool)
        ensures
            b == (cfg.dirty && (self matches Command::Quit || (self matches Command::EditFile(f)
                && (f is Some || cfg.default_filename is Some)))),
    {
        match self {
            Command::Quit => cfg.dirty,
            Command::EditFile(f) => cfg.dirty && (f.is_some() || cfg.default_filename.is_some()),
            _ => false,
        }
    }
}

/// Whether one address's number, if any, fits the machine's index type.
fn addr_fits_exec(a: &Addr) -> (b: bool)
    ensures
        b == addr_fits(*a),
{
    match a.primary {
        crate::parse::LineAddr::Number(n) => n <= usize::MAX as u64,
        _ => true,
    }
}

fn opt_addr_fits_exec(a: &Option<Addr>) -> (b: bool)
    ensures
        b == opt_addr_fits(*a),
{
    match a {
        Some(x) => addr_fits_exec(x),
        None => true,
    }
}

fn opt_range_fits_exec(r: &Option<LineRange>) -> (b: bool)
    ensures
        b == opt_range_fits(*r),
{
    match r {
        Some(x) => {
            let left = match &x.0 {
                Some(a) => addr_fits_exec(a),
                None => true,
            };
            let right = match &x.2 {
                Some(a) => addr_fits_exec(a),
                None => true,
            };
            left && right
        },
        None => true,
    }
}

/// Every numeric address the command carries fits the machine's index type.
pub open spec fn opt_addr_fits(a: Option<Addr>) -> bool {
    a matches Some(x) ==> addr_fits(x)
}

/// Every numeric address of the range, if any, fits the machine's index
/// type.
pub open spec fn opt_range_fits(r: Option<LineRange>) -> bool {
    r matches Some(x) ==> range_fits(x)
}

/// Every numeric address anywhere in the command fits the machine's index
/// type.
pub open spec fn cmd_fits(c: Command) -> bool {
    match c {
        Command::AppendText(a) => opt_addr_fits(a),
        Command::InsertText(a) => opt_addr_fits(a),
        Command::MarkLine(a, _) => opt_addr_fits(a),
        Command::ChangeText(r) => opt_range_fits(r),
        Command::Delete(r) => opt_range_fits(r),
        Command::Print(r) => opt_range_fits(r),
        Command::PrintNumbered(r) => opt_range_fits(r),
        Command::SaveFile(r, _) => opt_range_fits(r),
        Command::SaveAndQuit(r, _) => opt_range_fits(r),
        Command::SaveAppend(r, _) => opt_range_fits(r),
        _ => true,
    }
}

/// The two sessions agree on everything but the mark table.
pub open spec fn cfg_same_except_marks(pre: Config, post: Config) -> bool {
    &&& post.prompt == pre.prompt
    &&& post.dirty == pre.dirty
    &&& post.show_prompt == pre.show_prompt
    &&& post.current_index == pre.current_index
    &&& post.default_filename == pre.default_filename
    &&& post.cut_buffer == pre.cut_buffer
    &&& post.last_error == pre.last_error
    &&& post.print_errors == pre.print_errors
}

/// The two sessions agree on everything but the default filename.
pub open spec fn cfg_same_except_default(pre: Config, post: Config) -> bool {
    &&& post.prompt == pre.prompt
    &&& post.dirty == pre.dirty
    &&& post.show_prompt == pre.show_prompt
    &&& post.current_index == pre.current_index
    &&& post.cut_buffer == pre.cut_buffer
    &&& post.marks == pre.marks
    &&& post.last_error == pre.last_error
    &&& post.print_errors == pre.print_errors
}

/// The same outcome with the effect forgotten.
pub open spec fn strip_effect(r: Result<Effect, EdError>) -> Result<(), EdError> {
    match r {
        Ok(_) => Ok(()),
        Err(e) => Err(e),
    }
}

/// A success carries no effect.
pub open spec fn nothing_on_ok(r: Result<Effect, EdError>) -> bool {
    r matches Ok(ef) ==> ef is Nothing
}

/// The range a save-like command works on when none is written: the whole
/// buffer.
pub open spec fn effective_range_everything(range: Option<LineRange>) -> LineRange {
    match range {
        Some(r) => r,
        None => spec_everything(),
    }
}

/// What inserting `text` before the addressed line does. Zero-length input
/// is `Unknown` and changes nothing. On an empty buffer the text becomes the
/// whole buffer. Otherwise the address is resolved (a missing mark is a
/// message error); a position beyond one past the last line is guarded as
/// `Unknown`; a valid one receives the text in place, shifting the addressed
/// line and its followers down. The cursor rests on the last inserted line
/// and the session is dirty.
pub open spec fn insert_post(
    text: Seq<String>,
    line: Option<Addr>,
    pre_buf: Seq<String>,
    pre_cfg: Config,
    post_buf: Seq<String>,
    post_cfg: Config,
    r: Result<Effect, EdError>,
) -> bool {
    if text.len() == 0 {
        &&& r == Err::<Effect, EdError>(EdError::Unknown)
        &&& post_buf =~= pre_buf
        &&& post_cfg == pre_cfg
    } else if pre_buf.len() == 0 {
        &&& nothing_on_ok(r) && r is Ok
        &&& post_buf =~= text
        &&& post_cfg.current_index == Some(((text.len() - 1) as usize))
        &&& post_cfg.dirty
        &&& cfg_same_except_cursor_dirty(pre_cfg, post_cfg)
    } else {
        match spec_resolve_addr(
            effective_addr(line),
            pre_buf.len() as int,
            pre_cfg.current_index,
            pre_cfg.marks@,
        ) {
            None => {
                &&& (r matches Err(e) && (e matches EdError::Msg(m) && m@
                    == mark_not_found_msg()))
                &&& post_buf =~= pre_buf
                &&& post_cfg == pre_cfg
            },
            Some(p) => {
                if p > pre_buf.len() {
                    &&& r == Err::<Effect, EdError>(EdError::Unknown)
                    &&& post_buf =~= pre_buf
                    &&& post_cfg == pre_cfg
                } else {
                    &&& nothing_on_ok(r) && r is Ok
                    &&& post_buf =~= pre_buf.subrange(0, p) + text + pre_buf.subrange(
                        p,
                        pre_buf.len() as int,
                    )
                    &&& post_cfg.current_index == Some(((p + text.len() - 1) as usize))
                    &&& post_cfg.dirty
                    &&& cfg_same_except_cursor_dirty(pre_cfg, post_cfg)
                }
            },
        }
    }
}

/// What deleting `range` does. The range is resolved (a missing mark is a
/// message error); an unordered or out-of-bounds range is guarded as
/// `Unknown`; a valid inclusive range `[s, e]` is removed whole, the cursor
/// is reset to `s` and the session is dirty. Deleting the entire buffer is
/// legal and leaves it empty with the cursor cleared — no line is current
/// in an empty buffer.
pub open spec fn delete_post(
    range: Option<LineRange>,
    pre_buf: Seq<String>,
    pre_cfg: Config,
    post_buf: Seq<String>,
    post_cfg: Config,
    r: Result<Effect, EdError>,
) -> bool {
    match spec_resolve_range(
        effective_range(range),
        pre_buf.len() as int,
        pre_cfg.current_index,
        pre_cfg.marks@,
    ) {
        None => {
            &&& (r matches Err(e) && (e matches EdError::Msg(m) && m@ == mark_not_found_msg()))
            &&& post_buf =~= pre_buf
            &&& post_cfg == pre_cfg
        },
        Some((s, e)) => {
            if 0 <= s && s <= e && e < pre_buf.len() {
                &&& nothing_on_ok(r) && r is Ok
                &&& post_buf =~= pre_buf.subrange(0, s) + pre_buf.subrange(
                    e + 1,
                    pre_buf.len() as int,
                )
                &&& post_cfg.current_index == (if e - s + 1 == pre_buf.len() {
                    Option::<usize>::None
                } else {
                    Some((s as usize))
                })
                &&& post_cfg.dirty
                &&& cfg_same_except_cursor_dirty(pre_cfg, post_cfg)
            } else {
                &&& r == Err::<Effect, EdError>(EdError::Unknown)
                &&& post_buf =~= pre_buf
                &&& post_cfg == pre_cfg
            }
        },
    }
}

/// What printing `range` hands the output sink: nothing is changed; an empty
/// buffer is `Unknown`; a valid inclusive range is the lines themselves,
/// in order.
pub open spec fn print_post(
    range: Option<LineRange>,
    pre_buf: Seq<String>,
    pre_cfg: Config,
    post_buf: Seq<String>,
    post_cfg: Config,
    r: Result<Effect, EdError>,
) -> bool {
    &&& post_buf =~= pre_buf
    &&& post_cfg == pre_cfg
    &&& if pre_buf.len() == 0 {
        r == Err::<Effect, EdError>(EdError::Unknown)
    } else {
        match spec_resolve_range(
            effective_range(range),
            pre_buf.len() as int,
            pre_cfg.current_index,
            pre_cfg.marks@,
        ) {
            None => (r matches Err(e) && (e matches EdError::Msg(m) && m@
                == mark_not_found_msg())),
            Some((s, e)) => {
                if 0 <= s && s <= e && e < pre_buf.len() {
                    r matches Ok(ef) && (ef matches Effect::Print(lines) && lines@
                        =~= pre_buf.subrange(s, e + 1))
                } else {
                    r == Err::<Effect, EdError>(EdError::Unknown)
                }
            },
        }
    }
}

/// What printing `range` numbered hands the output sink: as [`print_post`],
/// with each line paired with its 1-based line number.
pub open spec fn print_numbered_post(
    range: Option<LineRange>,
    pre_buf: Seq<String>,
    pre_cfg: Config,
    post_buf: Seq<String>,
    post_cfg: Config,
    r: Result<Effect, EdError>,
) -> bool {
    &&& post_buf =~= pre_buf
    &&& post_cfg == pre_cfg
    &&& if pre_buf.len() == 0 {
        r == Err::<Effect, EdError>(EdError::Unknown)
    } else {
        match spec_resolve_range(
            effective_range(range),
            pre_buf.len() as int,
            pre_cfg.current_index,
            pre_cfg.marks@,
        ) {
            None => (r matches Err(e) && (e matches EdError::Msg(m) && m@
                == mark_not_found_msg())),
            Some((s, e)) => {
                if 0 <= s && s <= e && e < pre_buf.len() {
                    r matches Ok(ef) && (ef matches Effect::PrintNumbered(pairs) && {
                        &&& pairs@.len() == e + 1 - s
                        &&& forall|i: int|
                            0 <= i < pairs@.len() ==> (#[trigger] pairs@[i]).0 as int == s + i + 1
                                && pairs@[i].1 == pre_buf[s + i]
                    })
                } else {
                    r == Err::<Effect, EdError>(EdError::Unknown)
                }
            },
        }
    }
}

/// What marking a line does. The address is resolved (a missing mark in it
/// is a message error) and stored under the letter, overwriting any prior
/// mark; bounds are not re-validated and nothing else — cursor and dirty
/// flag included — moves.
pub open spec fn mark_post(
    line: Option<Addr>,
    mark: char,
    pre_buf: Seq<String>,
    pre_cfg: Config,
    post_buf: Seq<String>,
    post_cfg: Config,
    r: Result<Effect, EdError>,
) -> bool {
    &&& post_buf =~= pre_buf
    &&& match spec_resolve_addr(
        effective_addr(line),
        pre_buf.len() as int,
        pre_cfg.current_index,
        pre_cfg.marks@,
    ) {
        None => {
            &&& (r matches Err(e) && (e matches EdError::Msg(m) && m@ == mark_not_found_msg()))
            &&& post_cfg == pre_cfg
        },
        Some(p) => {
            &&& nothing_on_ok(r) && r is Ok
            &&& post_cfg.marks@ == pre_cfg.marks@.insert(mark as u32, (p as usize))
            &&& cfg_same_except_marks(pre_cfg, post_cfg)
        },
    }
}

/// Whether a save target is the reserved shell-pipe form: its trimmed
/// filename begins with `!`.
pub open spec fn bang_target(filename: Option<String>) -> bool {
    filename matches Some(f) && spec_trim(f@).len() > 0 && spec_trim(f@)[0] == '!'
}

/// What a save-like command decides. Nothing of the buffer changes. The
/// range (default: everything) is resolved first; a `!` target is rejected
/// as `Unknown`; the filename is then resolved per [`spec_get_filename`] —
/// the first explicit filename becomes the session default even when a later
/// guard fails — and a missing one is `Unknown`. An unordered or
/// out-of-bounds range (an empty buffer included) is guarded as `Unknown`.
/// Otherwise the effect carries the target path and exactly the resolved
/// inclusive range of lines.
pub open spec fn save_post(
    range: Option<LineRange>,
    filename: Option<String>,
    append: bool,
    then_quit: bool,
    buf: Seq<String>,
    pre_cfg: Config,
    post_cfg: Config,
    r: Result<Effect, EdError>,
) -> bool {
    match spec_resolve_range(
        effective_range_everything(range),
        buf.len() as int,
        pre_cfg.current_index,
        pre_cfg.marks@,
    ) {
        None => {
            &&& (r matches Err(e) && (e matches EdError::Msg(m) && m@ == mark_not_found_msg()))
            &&& post_cfg == pre_cfg
        },
        Some((s, e)) => {
            if bang_target(filename) {
                &&& r == Err::<Effect, EdError>(EdError::Unknown)
                &&& post_cfg == pre_cfg
            } else {
                match spec_get_filename(filename, pre_cfg) {
                    (None, _) => {
                        &&& r == Err::<Effect, EdError>(EdError::Unknown)
                        &&& post_cfg == pre_cfg
                    },
                    (Some(path), cfg1) => {
                        &&& post_cfg == cfg1
                        &&& if 0 <= s && s <= e && e < buf.len() {
                            r matches Ok(ef) && (ef matches Effect::Save(req) && {
                                &&& req.path == path
                                &&& req.lines@ =~= buf.subrange(s, e + 1)
                                &&& req.append == append
                                &&& req.then_quit == then_quit
                            })
                        } else {
                            r == Err::<Effect, EdError>(EdError::Unknown)
                        }
                    },
                }
            }
        },
    }
}

/// What an edit command decides. Nothing changes here: the named or default
/// file is chosen (`Unknown` when neither exists); a dirty session demands
/// an affirmative answer and otherwise the command quietly continues; the
/// effect asks the program to load the chosen file, whose contents come back
/// through [`edit_outcome`].
pub open spec fn edit_post(
    filename: Option<String>,
    confirmed: bool,
    unconditional: bool,
    pre_buf: Seq<String>,
    pre_cfg: Config,
    post_buf: Seq<String>,
    post_cfg: Config,
    r: Result<Effect, EdError>,
) -> bool {
    &&& post_buf =~= pre_buf
    &&& post_cfg == pre_cfg
    &&& match (match filename {
        Some(f) => Some(f),
        None => pre_cfg.default_filename,
    }) {
        None => r == Err::<Effect, EdError>(EdError::Unknown),
        Some(target) => {
            if !unconditional && pre_cfg.dirty && !confirmed {
                r == Ok::<Effect, EdError>(Effect::Nothing)
            } else {
                r matches Ok(ef) && (ef matches Effect::LoadFile(p) && p == target)
            }
        },
    }
}

/// Decide a save-like command, per [`save_post`]. The resulting effect, if
/// any, carries everything the program needs to perform the write; the
/// write's result comes back through [`save_outcome`].
fn save_cmd(
    range: Option<LineRange>,
    filename: Option<String>,
    append: bool,
    then_quit: bool,
    buffer: &Buffer,
    cfg: &mut Config,
) -> (r: Result<Effect, EdError>)
    requires
        opt_range_fits(range),
    ensures
        save_post(range, filename, append, then_quit, buffer@, *old(cfg), *final(cfg), r),
{
    let eff = match range {
        Some(lr) => lr,
        None => LineRange::everything(),
    };
    let (s, e) = match eff.resolve(buffer, cfg) {
        Ok(p) => p,
        Err(er) => {
            return Err(er);
        },
    };
    if let Some(f) = &filename {
        let t = trim_spaces(f.as_str());
        if t.unicode_len() > 0 && t.get_char(0) == '!' {
            return Err(EdError::Unknown);
        }
    }
    let path = match get_filename(filename, cfg) {
        Some(p) => p,
        None => {
            return Err(EdError::Unknown);
        },
    };
    if !(s <= e && e < buffer.len()) {
        return Err(EdError::Unknown);
    }
    let mut lines: Vec<String> = Vec::new();
    let mut k: usize = s;
    while k <= e
        invariant
            s <= k <= e + 1,
            e < buffer@.len(),
            buffer@.len() <= usize::MAX,
            lines@ =~= buffer@.subrange(s as int, k as int),
        decreases e + 1 - k,
    {
        lines.push(buffer[k].clone());
        k = k + 1;
    }
    Ok(Effect::Save(SaveRequest { path, lines, append, then_quit }))
}

/// What one command does to the buffer and the session, and what it asks of
/// the surrounding program — the whole executor, case by case.
pub open spec fn run_post(
    cmd: Command,
    text: Seq<String>,
    confirmed: bool,
    pre_buf: Seq<String>,
    pre_cfg: Config,
    post_buf: Seq<String>,
    post_cfg: Config,
    r: Result<Effect, EdError>,
) -> bool {
    match cmd {
        Command::AppendText(line) => append_post(
            text,
            line,
            pre_buf,
            pre_cfg,
            post_buf,
            post_cfg,
            strip_effect(r),
        ) && nothing_on_ok(r),
        Command::ChangeText(range) => change_post(
            text,
            range,
            pre_buf,
            pre_cfg,
            post_buf,
            post_cfg,
            strip_effect(r),
        ) && nothing_on_ok(r),
        Command::InsertText(line) => insert_post(
            text,
            line,
            pre_buf,
            pre_cfg,
            post_buf,
            post_cfg,
            r,
        ),
        Command::Delete(range) => delete_post(range, pre_buf, pre_cfg, post_buf, post_cfg, r),
        Command::Print(range) => print_post(range, pre_buf, pre_cfg, post_buf, post_cfg, r),
        Command::PrintNumbered(range) => print_numbered_post(
            range,
            pre_buf,
            pre_cfg,
            post_buf,
            post_cfg,
            r,
        ),
        Command::MarkLine(line, mark) => mark_post(
            line,
            mark,
            pre_buf,
            pre_cfg,
            post_buf,
            post_cfg,
            r,
        ),
        Command::Quit => {
            &&& post_buf =~= pre_buf
            &&& post_cfg == pre_cfg
            &&& r == (if !pre_cfg.dirty || confirmed {
                Err::<Effect, EdError>(EdError::Exit)
            } else {
                Ok::<Effect, EdError>(Effect::Nothing)
            })
        },
        Command::HardQuit => {
            &&& post_buf =~= pre_buf
            &&& post_cfg == pre_cfg
            &&& r == Err::<Effect, EdError>(EdError::Exit)
        },
        Command::ToggleShowPrompt => {
            &&& post_buf =~= pre_buf
            &&& post_cfg == (Config { show_prompt: !pre_cfg.show_prompt, ..pre_cfg })
            &&& r == Ok::<Effect, EdError>(Effect::Nothing)
        },
        Command::ToggleErrorExpl => {
            &&& post_buf =~= pre_buf
            &&& post_cfg == (Config { print_errors: !pre_cfg.print_errors, ..pre_cfg })
            &&& r == Ok::<Effect, EdError>(Effect::Nothing)
        },
        Command::SetDefaultFilename(f) => {
            &&& post_buf =~= pre_buf
            &&& (post_cfg.default_filename matches Some(df) && df@ == spec_trim(f@))
            &&& cfg_same_except_default(pre_cfg, post_cfg)
            &&& r == Ok::<Effect, EdError>(Effect::Nothing)
        },
        Command::GetDefaultFilename => {
            &&& post_buf =~= pre_buf
            &&& post_cfg == pre_cfg
            &&& match pre_cfg.default_filename {
                Some(f) => r matches Ok(ef) && (ef matches Effect::Print(lines) && lines@
                    =~= seq![f]),
                None => r == Err::<Effect, EdError>(EdError::Unknown),
            }
        },
        Command::LastError => {
            &&& post_buf =~= pre_buf
            &&& post_cfg == pre_cfg
            &&& r matches Ok(ef) && (ef matches Effect::Print(lines) && lines@ =~= (
            match pre_cfg.last_error {
                Some(m) => seq![m],
                None => Seq::<String>::empty(),
            }))
        },
        Command::EditFile(f) => edit_post(
            f,
            confirmed,
            false,
            pre_buf,
            pre_cfg,
            post_buf,
            post_cfg,
            r,
        ),
        Command::UncondEditFile(f) => edit_post(
            f,
            confirmed,
            true,
            pre_buf,
            pre_cfg,
            post_buf,
            post_cfg,
            r,
        ),
        Command::SaveFile(range, f) => post_buf =~= pre_buf && save_post(
            range,
            f,
            false,
            false,
            pre_buf,
            pre_cfg,
            post_cfg,
            r,
        ),
        Command::SaveAndQuit(range, f) => post_buf =~= pre_buf && save_post(
            range,
            f,
            false,
            true,
            pre_buf,
            pre_cfg,
            post_cfg,
            r,
        ),
        Command::SaveAppend(range, f) => post_buf =~= pre_buf && save_post(
            range,
            f,
            true,
            false,
            pre_buf,
            pre_cfg,
            post_cfg,
            r,
        ),
    }
}

/// Law: deleting the inclusive range `[s, e]` removes exactly `e - s + 1`
/// lines; the lines before `s` keep their places and the lines after `e`
/// move up by the removed count. Deleting the full buffer leaves it empty.
pub proof fn lemma_delete_removes_count(pre: Seq<String>, post: Seq<String>, s: int, e: int)
    requires
        0 <= s <= e < pre.len(),
        post =~= pre.subrange(0, s) + pre.subrange(e + 1, pre.len() as int),
    ensures
        post.len() == pre.len() - (e - s + 1),
        forall|i: int| 0 <= i < s ==> post[i] == pre[i],
        forall|i: int| e < i < pre.len() ==> post[i - (e + 1 - s)] == pre[i],
        s == 0 && e == pre.len() - 1 ==> post.len() == 0,
{
}

/// Law: no command but the mark command touches the mark table, so a mark
/// set at index `i` still resolves to `i` after any number of unrelated
/// later edits — staleness is intentional.
pub proof fn lemma_edits_leave_marks(
    cmd: Command,
    text: Seq<String>,
    confirmed: bool,
    pre_buf: Seq<String>,
    pre_cfg: Config,
    post_buf: Seq<String>,
    post_cfg: Config,
    r: Result<Effect, EdError>,
)
    requires
        run_post(cmd, text, confirmed, pre_buf, pre_cfg, post_buf, post_cfg, r),
        !(cmd matches Command::MarkLine(_, _)),
    ensures
        post_cfg.marks == pre_cfg.marks,
{
}

impl Command {
    /// Whether every numeric address in the command fits the machine's index
    /// type, per [`cmd_fits`]: the one precondition of [`Command::run`] that
    /// depends on the command alone.
    pub fn fits(&self) -> (b: bool)
        ensures
            b == cmd_fits(*self),
    {
        match self {
            Command::AppendText(a) => opt_addr_fits_exec(a),
            Command::InsertText(a) => opt_addr_fits_exec(a),
            Command::MarkLine(a, _) => opt_addr_fits_exec(a),
            Command::ChangeText(r) => opt_range_fits_exec(r),
            Command::Delete(r) => opt_range_fits_exec(r),
            Command::Print(r) => opt_range_fits_exec(r),
            Command::PrintNumbered(r) => opt_range_fits_exec(r),
            Command::SaveFile(r, _) => opt_range_fits_exec(r),
            Command::SaveAndQuit(r, _) => opt_range_fits_exec(r),
            Command::SaveAppend(r, _) => opt_range_fits_exec(r),
            _ => true,
        }
    }

    /// Apply this command to the buffer and the session, per [`run_post`].
    ///
    /// `text` is the collected input of a text-entering command (see
    /// [`Command::collects_text`]) and is ignored by the others; `confirmed`
    /// is the answer to the prompt of a command that asked for one (see
    /// [`Command::needs_confirmation`]) and is ignored by the rest. A
    /// returned [`Effect`] asks the program for output or file transport;
    /// file results come back through [`edit_outcome`] and [`save_outcome`].
    pub fn run(self, text: &Vec<String>, confirmed: bool, buffer: &mut Buffer, cfg: &mut Config) -> (r:
        Result<Effect, EdError>)
        requires
            cmd_fits(self),
            old(buffer)@.len() + text@.len() <= usize::MAX,
        ensures
            run_post(self, text@, confirmed, old(buffer)@, *old(cfg), final(buffer)@, *final(cfg), r),
    {
        match self {
            Command::AppendText(line) => {
                match append_text::cmd(text.as_slice(), line, buffer, cfg) {
                    Ok(()) => Ok(Effect::Nothing),
                    Err(e) => Err(e),
                }
            },
            Command::ChangeText(range) => {
                match change_text::cmd(text.as_slice(), range, buffer, cfg) {
                    Ok(()) => Ok(Effect::Nothing),
                    Err(e) => Err(e),
                }
            },
            Command::InsertText(line) => {
                if text.len() == 0 {
                    return Err(EdError::Unknown);
                }
                if buffer.len() == 0 {
                    let _ = insert_all(buffer, 0, text.as_slice());
                    cfg.current_index = Some(text.len() - 1);
                    cfg.dirty = true;
                    proof {
                        assert(final(buffer)@ =~= text@);
                    }
                    Ok(Effect::Nothing)
                } else {
                    let eff = match line {
                        Some(a) => a,
                        None => Addr::period(),
                    };
                    let p = match eff.resolve(buffer, cfg) {
                        Ok(p) => p,
                        Err(e) => {
                            return Err(e);
                        },
                    };
                    if p > buffer.len() {
                        return Err(EdError::Unknown);
                    }
                    let _ = insert_all(buffer, p, text.as_slice());
                    cfg.current_index = Some(p + text.len() - 1);
                    cfg.dirty = true;
                    Ok(Effect::Nothing)
                }
            },
            Command::Delete(range) => {
                let eff = match range {
                    Some(lr) => lr,
                    None => LineRange::current_line(),
                };
                let (s, e) = match eff.resolve(buffer, cfg) {
                    Ok(p) => p,
                    Err(er) => {
                        return Err(er);
                    },
                };
                if !(s <= e && e < buffer.len()) {
                    return Err(EdError::Unknown);
                }
                let ghost pre = buffer@;
                let count = e - s + 1;
                let mut k: usize = 0;
                while k < count
                    invariant
                        k <= count,
                        count == e - s + 1,
                        s <= e < pre.len(),
                        buffer@ =~= pre.subrange(0, s as int) + pre.subrange(
                            s + k,
                            pre.len() as int,
                        ),
                    decreases count - k,
                {
                    let _ = buffer.remove(s);
                    k = k + 1;
                    proof {
                        assert(buffer@ =~= pre.subrange(0, s as int) + pre.subrange(
                            s + k,
                            pre.len() as int,
                        ));
                    }
                }
                cfg.current_index = if buffer.len() == 0 {
                    None
                } else {
                    Some(s)
                };
                cfg.dirty = true;
                Ok(Effect::Nothing)
            },
            Command::Print(range) => {
                if buffer.len() == 0 {
                    return Err(EdError::Unknown);
                }
                let eff = match range {
                    Some(lr) => lr,
                    None => LineRange::current_line(),
                };
                let (s, e) = match eff.resolve(buffer, cfg) {
                    Ok(p) => p,
                    Err(er) => {
                        return Err(er);
                    },
                };
                if !(s <= e && e < buffer.len()) {
                    return Err(EdError::Unknown);
                }
                let mut lines: Vec<String> = Vec::new();
                let mut k: usize = s;
                while k <= e
                    invariant
                        s <= k <= e + 1,
                        e < buffer@.len(),
                        buffer@.len() <= usize::MAX,
                        lines@ =~= buffer@.subrange(s as int, k as int),
                    decreases e + 1 - k,
                {
                    lines.push(buffer[k].clone());
                    k = k + 1;
                }
                Ok(Effect::Print(lines))
            },
            Command::PrintNumbered(range) => {
                if buffer.len() == 0 {
                    return Err(EdError::Unknown);
                }
                let eff = match range {
                    Some(lr) => lr,
                    None => LineRange::current_line(),
                };
                let (s, e) = match eff.resolve(buffer, cfg) {
                    Ok(p) => p,
                    Err(er) => {
                        return Err(er);
                    },
                };
                if !(s <= e && e < buffer.len()) {
                    return Err(EdError::Unknown);
                }
                let mut pairs: Vec<(usize, String)> = Vec::new();
                let mut k: usize = s;
                while k <= e
                    invariant
                        s <= k <= e + 1,
                        e < buffer@.len(),
                        buffer@.len() <= usize::MAX,
                        pairs@.len() == k - s,
                        forall|i: int|
                            0 <= i < pairs@.len() ==> (#[trigger] pairs@[i]).0 as int == s + i + 1
                                && pairs@[i].1 == buffer@[s + i],
                    decreases e + 1 - k,
                {
                    pairs.push((k + 1, buffer[k].clone()));
                    k = k + 1;
                }
                Ok(Effect::PrintNumbered(pairs))
            },
            Command::MarkLine(line, mark) => {
                let eff = match line {
                    Some(a) => a,
                    None => Addr::period(),
                };
                let p = match eff.resolve(buffer, cfg) {
                    Ok(p) => p,
                    Err(e) => {
                        return Err(e);
                    },
                };
                let _ = cfg.marks.insert(mark as u32, p);
                Ok(Effect::Nothing)
            },
            Command::Quit => {
                match quit(cfg, confirmed) {
                    Ok(()) => Ok(Effect::Nothing),
                    Err(e) => Err(e),
                }
            },
            Command::HardQuit => Err(EdError::Exit),
            Command::ToggleShowPrompt => {
                cfg.show_prompt = !cfg.show_prompt;
                Ok(Effect::Nothing)
            },
            Command::ToggleErrorExpl => {
                cfg.print_errors = !cfg.print_errors;
                Ok(Effect::Nothing)
            },
            Command::SetDefaultFilename(f) => {
                cfg.default_filename = Some(trim_spaces(f.as_str()));
                Ok(Effect::Nothing)
            },
            Command::GetDefaultFilename => {
                match &cfg.default_filename {
                    Some(f) => {
                        let mut lines: Vec<String> = Vec::new();
                        lines.push(f.clone());
                        Ok(Effect::Print(lines))
                    },
                    None => Err(EdError::Unknown),
                }
            },
            Command::LastError => {
                let mut lines: Vec<String> = Vec::new();
                if let Some(m) = &cfg.last_error {
                    lines.push(m.clone());
                }
                Ok(Effect::Print(lines))
            },
            Command::EditFile(f) => {
                let target = match f {
                    Some(t) => t,
                    None => {
                        match &cfg.default_filename {
                            Some(d) => d.clone(),
                            None => {
                                return Err(EdError::Unknown);
                            },
                        }
                    },
                };
                if cfg.dirty && !confirmed {
                    return Ok(Effect::Nothing);
                }
                Ok(Effect::LoadFile(target))
            },
            Command::UncondEditFile(f) => {
                let target = match f {
                    Some(t) => t,
                    None => {
                        match &cfg.default_filename {
                            Some(d) => d.clone(),
                            None => {
                                return Err(EdError::Unknown);
                            },
                        }
                    },
                };
                Ok(Effect::LoadFile(target))
            },
            Command::SaveFile(range, f) => save_cmd(range, f, false, false, buffer, cfg),
            Command::SaveAndQuit(range, f) => save_cmd(range, f, false, true, buffer, cfg),
            Command::SaveAppend(range, f) => save_cmd(range, f, true, false, buffer, cfg),
        }
    }
}

} // verus!
