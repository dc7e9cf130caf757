//! An interactive line-oriented text-editor command interpreter.
//!
//! A user types terse single-line commands that address one or more lines of
//! an in-memory ordered text buffer. The crate holds the command grammar, the
//! address and range resolution engine, and the command executor that turns
//! the compact syntax into unambiguous buffer mutations while keeping the
//! cursor, the marks and the dirty flag consistent. Reading the terminal and
//! the filesystem is left to the surrounding program, which hands lines,
//! confirmation answers and file contents to the executor as plain values.

pub mod commands;
pub mod errors;
pub mod grammar;
pub mod parse;

use std::collections::HashMap;
use vstd::prelude::*;

use crate::errors::EdError;

verus! {

/// The ordered text buffer: one `String` per line, 0-indexed internally and
/// 1-indexed at the user boundary.
pub type Buffer = Vec<String>;

/// Session state threaded through every command: cursor, marks, dirty flag,
/// default filename, prompt and error-display settings.
///
/// Marks are keyed by the code point of their lowercase letter. Entries are
/// not adjusted when lines are inserted or removed elsewhere: staleness is
/// intentional.
pub struct Config {
    pub prompt: String,
    pub dirty: bool,
    pub show_prompt: bool,
    pub current_index: Option<usize>,
    pub default_filename: Option<String>,
    pub cut_buffer: Vec<String>,
    pub marks: HashMap<u32, usize>,
    pub last_error: Option<String>,
    pub print_errors: bool,
}

impl Default for Config {
    /// A fresh session: clean buffer state, `*` prompt, prompt hidden,
    /// no cursor, no default filename, no marks, no recorded error.
    fn default() -> (cfg: Config)
        ensures
            cfg.prompt@ == "*"@,
            !cfg.dirty,
            !cfg.show_prompt,
            cfg.current_index is None,
            cfg.default_filename is None,
            cfg.cut_buffer@ =~= Seq::<String>::empty(),
            cfg.marks@ =~= Map::<u32, usize>::empty(),
            cfg.last_error is None,
            !cfg.print_errors,
    {
        Config {
            prompt: "*".to_owned(),
            dirty: false,
            show_prompt: false,
            current_index: None,
            default_filename: None,
            cut_buffer: Vec::new(),
            marks: HashMap::new(),
            last_error: None,
            print_errors: false,
        }
    }
}

impl Config {
    /// Advance the cursor by `idx` positions when one is set, or place it at
    /// `idx` when none is.
    pub fn update_curidx(&mut self, idx: usize)
        requires
            (match old(self).current_index {
                Some(v) => v + idx <= usize::MAX,
                None => true,
            }),
        ensures
            final(self).current_index == (match old(self).current_index {
                Some(v) => Some((v + idx) as usize),
                None => Some(idx),
            }),
            final(self).prompt == old(self).prompt,
            final(self).dirty == old(self).dirty,
            final(self).show_prompt == old(self).show_prompt,
            final(self).default_filename == old(self).default_filename,
            final(self).cut_buffer == old(self).cut_buffer,
            final(self).marks == old(self).marks,
            final(self).last_error == old(self).last_error,
            final(self).print_errors == old(self).print_errors,
    {
        let loc: usize = if let Some(v) = self.current_index.as_ref() {
            *v + idx
        } else {
            idx
        };
        self.current_index = Some(loc);
    }
}

/// The two sessions agree on everything but the cursor and the dirty flag.
/// Buffer-mutating commands touch only those two pieces of session state.
pub open spec fn cfg_same_except_cursor_dirty(pre: Config, post: Config) -> bool {
    &&& post.prompt == pre.prompt
    &&& post.show_prompt == pre.show_prompt
    &&& post.default_filename == pre.default_filename
    &&& post.cut_buffer == pre.cut_buffer
    &&& post.marks == pre.marks
    &&& post.last_error == pre.last_error
    &&& post.print_errors == pre.print_errors
}

/// Splice `elements` into `buffer` so that they begin at position `index`;
/// the lines that stood at `index` and beyond shift down by the number of
/// inserted lines.
pub fn insert_all(buffer: &mut Buffer, index: usize, elements: &[String]) -> (r: Result<
    (),
    EdError,
>)
    requires
        index <= old(buffer)@.len(),
        old(buffer)@.len() + elements@.len() <= usize::MAX,
    ensures
        r is Ok,
        final(buffer)@ =~= old(buffer)@.subrange(0, index as int) + elements@ + old(
            buffer,
        )@.subrange(index as int, old(buffer)@.len() as int),
{
    let ghost orig = buffer@;
    let mut idx: usize = 0;
    while idx < elements.len()
        invariant
            idx <= elements@.len(),
            index <= orig.len(),
            orig.len() + elements@.len() <= usize::MAX,
            buffer@ =~= orig.subrange(0, index as int) + elements@.subrange(0, idx as int)
                + orig.subrange(index as int, orig.len() as int),
        decreases elements@.len() - idx,
    {
        let elem = vstd::slice::slice_index_get(elements, idx).clone();
        buffer.insert(index + idx, elem);
        proof {
            assert(buffer@ =~= orig.subrange(0, index as int) + elements@.subrange(
                0,
                idx + 1 as int,
            ) + orig.subrange(index as int, orig.len() as int));
        }
        idx = idx + 1;
    }
    proof {
        assert(elements@.subrange(0, elements@.len() as int) =~= elements@);
    }
    Ok(())
}

} // verus!
