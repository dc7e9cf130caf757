//! Appending collected text after an addressed line.

use vstd::prelude::*;

use crate::errors::EdError;
use crate::parse::{addr_fits, mark_not_found_msg, spec_resolve_addr, Addr, LineAddr};
use crate::{cfg_same_except_cursor_dirty, insert_all, Buffer, Config};

verus! {

/// The address an append works from when none is written: the cursor.
pub open spec fn effective_addr(line: Option<Addr>) -> Addr {
    match line {
        Some(a) => a,
        None => Addr { primary: LineAddr::Period, modifier: None },
    }
}

/// What appending `text` at `line` does to the buffer and the session.
///
/// On an empty buffer non-empty text becomes the whole buffer and the
/// cursor rests on its last line; zero-length text there is an `Unknown`
/// error that changes nothing — the cursor stays clear, since no line is
/// current in an empty buffer. On a non-empty buffer the address is
/// resolved (a missing mark is a message error that changes nothing) and
/// the cursor moves to the addressed line; zero-length text is then an
/// `Unknown` error that leaves the buffer as it was — the cursor stays
/// rewound to the addressed line, the documented policy for empty input.
/// An addressed line beyond the buffer is `Unknown` as well. Otherwise the
/// text lands immediately after the addressed line, the cursor rests on the
/// last inserted line and the session is dirty.
pub open spec fn append_post(
    text: Seq<String>,
    line: Option<Addr>,
    pre_buf: Seq<String>,
    pre_cfg: Config,
    post_buf: Seq<String>,
    post_cfg: Config,
    r: Result<(), EdError>,
) -> bool {
    &&& cfg_same_except_cursor_dirty(pre_cfg, post_cfg)
    &&& if pre_buf.len() == 0 {
        if text.len() == 0 {
            &&& r == Err::<(), EdError>(EdError::Unknown)
            &&& post_buf =~= pre_buf
            &&& post_cfg.current_index == pre_cfg.current_index
            &&& post_cfg.dirty == pre_cfg.dirty
        } else {
            &&& r == Ok::<(), EdError>(())
            &&& post_buf =~= text
            &&& post_cfg.current_index == Some(((text.len() - 1) as usize))
            &&& post_cfg.dirty
        }
    } else {
        match spec_resolve_addr(
            effective_addr(line),
            pre_buf.len() as int,
            pre_cfg.current_index,
            pre_cfg.marks@,
        ) {
            None => {
                &&& (r matches Err(e) && (e matches EdError::Msg(m) && m@
                    == mark_not_found_msg()))
                &&& post_buf =~= pre_buf
                &&& post_cfg.current_index == pre_cfg.current_index
                &&& post_cfg.dirty == pre_cfg.dirty
            },
            Some(p) => {
                if text.len() == 0 {
                    &&& r == Err::<(), EdError>(EdError::Unknown)
                    &&& post_buf =~= pre_buf
                    &&& post_cfg.current_index == Some((p as usize))
                    &&& post_cfg.dirty == pre_cfg.dirty
                } else if p >= pre_buf.len() {
                    &&& r == Err::<(), EdError>(EdError::Unknown)
                    &&& post_buf =~= pre_buf
                    &&& post_cfg.current_index == Some((p as usize))
                    &&& post_cfg.dirty == pre_cfg.dirty
                } else {
                    &&& r == Ok::<(), EdError>(())
                    &&& post_buf =~= pre_buf.subrange(0, p + 1) + text + pre_buf.subrange(
                        p + 1,
                        pre_buf.len() as int,
                    )
                    &&& post_cfg.current_index == Some(((p + text.len()) as usize))
                    &&& post_cfg.dirty
                }
            },
        }
    }
}

/// Append the collected `text` after the line addressed by `line` (default:
/// the cursor), per [`append_post`]. An addressed line beyond the buffer is
/// guarded and reported `Unknown` rather than acted on.
pub fn cmd(text: &[String], line: Option<Addr>, buffer: &mut Buffer, cfg: &mut Config) -> (r:
    Result<(), EdError>)
    requires
        (line matches Some(a) ==> addr_fits(a)),
        old(buffer)@.len() + text@.len() <= usize::MAX,
    ensures
        append_post(text@, line, old(buffer)@, *old(cfg), final(buffer)@, *final(cfg), r),
{
    if buffer.len() == 0 {
        if text.len() == 0 {
            return Err(EdError::Unknown);
        }
        cfg.current_index = Some(0);
        let _ = insert_all(buffer, 0, text);
        cfg.update_curidx(text.len() - 1);
        cfg.dirty = true;
        proof {
            assert(final(buffer)@ =~= text@);
        }
        Ok(())
    } else {
        let eff = match line {
            Some(a) => a,
            None => Addr::period(),
        };
        let position = match eff.resolve(buffer, cfg) {
            Ok(p) => p,
            Err(e) => {
                return Err(e);
            },
        };
        cfg.current_index = Some(position);
        if text.len() == 0 {
            return Err(EdError::Unknown);
        }
        if position >= buffer.len() {
            return Err(EdError::Unknown);
        }
        let _ = insert_all(buffer, position + 1, text);
        cfg.update_curidx(text.len());
        cfg.dirty = true;
        Ok(())
    }
}

/// Law: appending non-empty text `T` so that it begins right after position
/// `p` leaves the lines up to `p` unchanged, places `T` at positions
/// `p + 1 .. p + 1 + |T|`, and shifts every later line down by `|T|`.
pub proof fn lemma_append_shifts(pre: Seq<String>, text: Seq<String>, post: Seq<String>, p: int)
    requires
        0 <= p < pre.len(),
        post =~= pre.subrange(0, p + 1) + text + pre.subrange(p + 1, pre.len() as int),
    ensures
        post.len() == pre.len() + text.len(),
        forall|i: int| 0 <= i <= p ==> post[i] == pre[i],
        forall|i: int| 0 <= i < text.len() ==> post[p + 1 + i] == text[i],
        forall|i: int| p < i < pre.len() ==> post[i + text.len()] == pre[i],
{
}

} // verus!
