//! Replacing an addressed range of lines with collected text.

use vstd::prelude::*;

use crate::errors::EdError;
use crate::parse::{
    mark_not_found_msg, range_fits, spec_current_line, spec_resolve_range, LineRange,
};
use crate::{cfg_same_except_cursor_dirty, insert_all, Buffer, Config};

verus! {

/// The range a change works on when none is written: the current line.
pub open spec fn effective_range(range: Option<LineRange>) -> LineRange {
    match range {
        Some(r) => r,
        None => spec_current_line(),
    }
}

/// What changing `range` to `text` does to the buffer and the session.
///
/// Empty replacement text is an `Unknown` error that leaves everything —
/// including the targeted range — fully intact: the change is atomic, there
/// is no partial delete. Otherwise the range is resolved (a missing mark is
/// a message error that changes nothing). On an empty buffer a change that
/// resolves to position 0 acts like an append of the whole text; on a
/// non-empty buffer a resolved range that is unordered or out of bounds is
/// guarded and reported `Unknown`, and a valid one is removed and replaced
/// by `text` in its place. The cursor rests on the last inserted line and
/// the session is dirty.
pub open spec fn change_post(
    text: Seq<String>,
    range: Option<LineRange>,
    pre_buf: Seq<String>,
    pre_cfg: Config,
    post_buf: Seq<String>,
    post_cfg: Config,
    r: Result<(), EdError>,
) -> bool {
    &&& cfg_same_except_cursor_dirty(pre_cfg, post_cfg)
    &&& if text.len() == 0 {
        &&& r == Err::<(), EdError>(EdError::Unknown)
        &&& post_buf =~= pre_buf
        &&& post_cfg.current_index == pre_cfg.current_index
        &&& post_cfg.dirty == pre_cfg.dirty
    } else {
        match spec_resolve_range(
            effective_range(range),
            pre_buf.len() as int,
            pre_cfg.current_index,
            pre_cfg.marks@,
        ) {
            None => {
                &&& (r matches Err(e) && (e matches EdError::Msg(m) && m@
                    == mark_not_found_msg()))
                &&& post_buf =~= pre_buf
                &&& post_cfg.current_index == pre_cfg.current_index
                &&& post_cfg.dirty == pre_cfg.dirty
            },
            Some((s, e)) => {
                if pre_buf.len() == 0 {
                    if s == 0 {
                        &&& r == Ok::<(), EdError>(())
                        &&& post_buf =~= text
                        &&& post_cfg.current_index == Some(((text.len() - 1) as usize))
                        &&& post_cfg.dirty
                    } else {
                        &&& r == Err::<(), EdError>(EdError::Unknown)
                        &&& post_buf =~= pre_buf
                        &&& post_cfg.current_index == pre_cfg.current_index
                        &&& post_cfg.dirty == pre_cfg.dirty
                    }
                } else {
                    if 0 <= s && s <= e && e < pre_buf.len() {
                        &&& r == Ok::<(), EdError>(())
                        &&& post_buf =~= pre_buf.subrange(0, s) + text + pre_buf.subrange(
                            e + 1,
                            pre_buf.len() as int,
                        )
                        &&& post_cfg.current_index == Some(((s + text.len() - 1) as usize))
                        &&& post_cfg.dirty
                    } else {
                        &&& r == Err::<(), EdError>(EdError::Unknown)
                        &&& post_buf =~= pre_buf
                        &&& post_cfg.current_index == pre_cfg.current_index
                        &&& post_cfg.dirty == pre_cfg.dirty
                    }
                }
            },
        }
    }
}

/// Replace the lines of `range` (default: the current line) with the
/// collected `text`, per [`change_post`]. The replacement text is acquired
/// first: when it is empty the targeted range is left fully intact.
pub fn cmd(text: &[String], range: Option<LineRange>, buffer: &mut Buffer, cfg: &mut Config) -> (r:
    Result<(), EdError>)
    requires
        (range matches Some(lr) ==> range_fits(lr)),
        old(buffer)@.len() + text@.len() <= usize::MAX,
    ensures
        change_post(text@, range, old(buffer)@, *old(cfg), final(buffer)@, *final(cfg), r),
{
    if text.len() == 0 {
        return Err(EdError::Unknown);
    }
    let eff = match range {
        Some(r) => r,
        None => LineRange::current_line(),
    };
    let (start, end) = match eff.resolve(buffer, cfg) {
        Ok(p) => p,
        Err(e) => {
            return Err(e);
        },
    };
    let ghost pre = buffer@;
    if buffer.len() == 0 {
        if start != 0 {
            return Err(EdError::Unknown);
        }
    } else {
        if !(start <= end && end < buffer.len()) {
            return Err(EdError::Unknown);
        }
        let count = end - start + 1;
        let mut k: usize = 0;
        while k < count
            invariant
                k <= count,
                count == end - start + 1,
                start <= end < pre.len(),
                buffer@ =~= pre.subrange(0, start as int) + pre.subrange(
                    start + k,
                    pre.len() as int,
                ),
            decreases count - k,
        {
            let _ = buffer.remove(start);
            k = k + 1;
            proof {
                assert(buffer@ =~= pre.subrange(0, start as int) + pre.subrange(
                    start + k,
                    pre.len() as int,
                ));
            }
        }
    }
    let _ = insert_all(buffer, start, text);
    cfg.current_index = Some(start + text.len() - 1);
    cfg.dirty = true;
    proof {
        if pre.len() == 0 {
            assert(final(buffer)@ =~= text@);
        } else {
            assert(final(buffer)@ =~= pre.subrange(0, start as int) + text@ + pre.subrange(
                end + 1,
                pre.len() as int,
            ));
        }
    }
    Ok(())
}

} // verus!
