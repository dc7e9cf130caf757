use rusted::commands::{
    edit_outcome, report_error, save_outcome, Command, Effect, LoadResult, SaveResult,
};
use rusted::errors::EdError;
use rusted::grammar::parse_line;
use rusted::Config;

fn no_text() -> Vec<String> {
    Vec::new()
}

fn run_line(line: &str, text: Vec<String>, buffer: &mut Vec<String>, cfg: &mut Config) -> Result<Effect, EdError> {
    parse_line(line)
        .expect("line must parse")
        .run(&text, false, buffer, cfg)
}

// On an empty buffer, `a` with input "hello", "world" then `2p` prints
// "world" and the buffer holds both lines.
#[test]
fn scenario_append_then_print_second_line() {
    let mut buffer: Vec<String> = vec![];
    let mut cfg = Config::default();
    let text: Vec<String> = vec!["hello".into(), "world".into()];
    let res = run_line("a", text, &mut buffer, &mut cfg);
    assert_eq!(res, Ok(Effect::Nothing));
    let res = run_line("2p", no_text(), &mut buffer, &mut cfg);
    assert_eq!(res, Ok(Effect::Print(vec!["world".to_string()])));
    let expected: Vec<String> = vec!["hello".into(), "world".into()];
    assert_eq!(buffer, expected);
}

// Buffer ["a","b","c"], command `1,2d`: buffer ["c"], cursor at index 0.
#[test]
fn scenario_delete_leading_range() {
    let mut buffer: Vec<String> = vec!["a".into(), "b".into(), "c".into()];
    let mut cfg = Config::default();
    cfg.current_index = Some(2);
    let res = run_line("1,2d", no_text(), &mut buffer, &mut cfg);
    assert_eq!(res, Ok(Effect::Nothing));
    assert_eq!(buffer, vec!["c".to_string()]);
    assert_eq!(cfg.current_index, Some(0));
    assert!(cfg.dirty);
}

// Deleting the full buffer is legal and leaves it empty.
#[test]
fn delete_whole_buffer_leaves_it_empty() {
    let mut buffer: Vec<String> = vec!["a".into(), "b".into()];
    let mut cfg = Config::default();
    let res = run_line("1,$d", no_text(), &mut buffer, &mut cfg);
    assert_eq!(res, Ok(Effect::Nothing));
    assert!(buffer.is_empty());
    // no line is current in an empty buffer
    assert_eq!(cfg.current_index, None);
}

// Cursor at line 2 of a 3-line buffer: `kx` marks index 1; after an edit
// elsewhere, `'xp` still prints the line standing at index 1.
#[test]
fn scenario_mark_survives_unrelated_edits() {
    let mut buffer: Vec<String> = vec!["first".into(), "second".into(), "third".into()];
    let mut cfg = Config::default();
    cfg.current_index = Some(1);
    let res = run_line("kx", no_text(), &mut buffer, &mut cfg);
    assert_eq!(res, Ok(Effect::Nothing));
    assert_eq!(cfg.marks.get(&('x' as u32)), Some(&1));
    // an unrelated later edit: append two lines after line 3
    let res = run_line(
        "3a",
        vec!["fourth".into(), "fifth".into()],
        &mut buffer,
        &mut cfg,
    );
    assert!(res.is_ok());
    let res = run_line("'xp", no_text(), &mut buffer, &mut cfg);
    assert_eq!(res, Ok(Effect::Print(vec!["second".to_string()])));
    assert_eq!(cfg.marks.get(&('x' as u32)), Some(&1));
}

// Quit on a clean session always exits; on a dirty one a negative answer
// returns success, the session keeps running and dirty is untouched.
#[test]
fn quit_respects_dirty_and_confirmation() {
    let mut buffer: Vec<String> = vec![];
    let mut cfg = Config::default();
    let res = Command::Quit.run(&no_text(), false, &mut buffer, &mut cfg);
    assert_eq!(res, Err(EdError::Exit));

    cfg.dirty = true;
    let res = Command::Quit.run(&no_text(), false, &mut buffer, &mut cfg);
    assert_eq!(res, Ok(Effect::Nothing));
    assert!(cfg.dirty);

    let res = Command::Quit.run(&no_text(), true, &mut buffer, &mut cfg);
    assert_eq!(res, Err(EdError::Exit));

    let res = Command::HardQuit.run(&no_text(), false, &mut buffer, &mut cfg);
    assert_eq!(res, Err(EdError::Exit));
}

// A save hands back exactly the resolved range; a refused creation is the
// unknown condition and leaves dirty set; a written file clears dirty.
#[test]
fn save_carries_exact_range_and_outcome_drives_dirty() {
    let mut buffer: Vec<String> = vec!["a".into(), "b".into(), "c".into()];
    let mut cfg = Config::default();
    cfg.dirty = true;
    let res = run_line("1,2w out.txt", no_text(), &mut buffer, &mut cfg);
    let req = match res {
        Ok(Effect::Save(req)) => req,
        other => panic!("expected a save effect, got {:?}", other),
    };
    assert_eq!(req.path, "out.txt".to_string());
    assert_eq!(req.lines, vec!["a".to_string(), "b".to_string()]);
    assert!(!req.append);
    assert!(!req.then_quit);
    // the first explicit filename becomes the session default
    assert_eq!(cfg.default_filename, Some("out.txt".to_string()));

    let res = save_outcome(&mut cfg, SaveResult::CreateRefused, false);
    assert_eq!(res, Err(EdError::Unknown));
    assert!(cfg.dirty);

    let res = save_outcome(&mut cfg, SaveResult::Written, false);
    assert_eq!(res, Ok(()));
    assert!(!cfg.dirty);
}

#[test]
fn save_and_quit_exits_after_a_written_file() {
    let mut buffer: Vec<String> = vec!["a".into()];
    let mut cfg = Config::default();
    cfg.dirty = true;
    let res = run_line("wq out.txt", no_text(), &mut buffer, &mut cfg);
    let req = match res {
        Ok(Effect::Save(req)) => req,
        other => panic!("expected a save effect, got {:?}", other),
    };
    assert!(req.then_quit);
    let res = save_outcome(&mut cfg, SaveResult::Written, req.then_quit);
    assert_eq!(res, Err(EdError::Exit));
    assert!(!cfg.dirty);
}

#[test]
fn save_errors_by_kind() {
    let mut buffer: Vec<String> = vec!["a".into()];
    let mut cfg = Config::default();
    // a shell-pipe target is reserved
    let res = run_line("w !sh", no_text(), &mut buffer, &mut cfg);
    assert_eq!(res, Err(EdError::Unknown));
    // no filename and no default: surfaced as the unknown condition
    let res = run_line("w", no_text(), &mut buffer, &mut cfg);
    assert_eq!(res, Err(EdError::Unknown));
    // an open failure is a message error
    let res = save_outcome(&mut cfg, SaveResult::OpenFailed, false);
    assert_eq!(res, Err(EdError::Msg("Could not open file".to_string())));
    // saving an empty buffer is guarded
    let mut empty: Vec<String> = vec![];
    let res = run_line("w out.txt", no_text(), &mut empty, &mut cfg);
    assert_eq!(res, Err(EdError::Unknown));
}

#[test]
fn edit_flow_replaces_buffer_and_clears_dirty() {
    let mut buffer: Vec<String> = vec!["old".into()];
    let mut cfg = Config::default();
    // no filename, no default
    let res = run_line("e", no_text(), &mut buffer, &mut cfg);
    assert_eq!(res, Err(EdError::Unknown));
    // dirty without confirmation: quietly continue, nothing changes
    cfg.dirty = true;
    let res = parse_line("e file.txt")
        .unwrap()
        .run(&no_text(), false, &mut buffer, &mut cfg);
    assert_eq!(res, Ok(Effect::Nothing));
    assert_eq!(buffer, vec!["old".to_string()]);
    // the unconditional variant skips the prompt
    let res = run_line("E file.txt", no_text(), &mut buffer, &mut cfg);
    assert_eq!(res, Ok(Effect::LoadFile("file.txt".to_string())));
    let res = edit_outcome(
        LoadResult::Loaded(vec!["x".into(), "y".into()]),
        &mut buffer,
        &mut cfg,
    );
    assert_eq!(res, Ok(()));
    assert_eq!(buffer, vec!["x".to_string(), "y".to_string()]);
    assert_eq!(cfg.current_index, Some(1));
    assert!(!cfg.dirty);
}

#[test]
fn edit_failures_by_kind() {
    let mut buffer: Vec<String> = vec!["keep".into()];
    let mut cfg = Config::default();
    let res = edit_outcome(LoadResult::Missing, &mut buffer, &mut cfg);
    assert_eq!(res, Err(EdError::Unknown));
    let res = edit_outcome(LoadResult::OpenFailed, &mut buffer, &mut cfg);
    assert_eq!(res, Err(EdError::Msg("error opening file".to_string())));
    let res = edit_outcome(LoadResult::ReadFailed, &mut buffer, &mut cfg);
    assert_eq!(res, Err(EdError::Msg("error reading from file".to_string())));
    assert_eq!(buffer, vec!["keep".to_string()]);
}

#[test]
fn insert_places_text_before_the_address() {
    let mut buffer: Vec<String> = vec!["a".into(), "b".into()];
    let mut cfg = Config::default();
    let res = run_line("2i", vec!["x".into()], &mut buffer, &mut cfg);
    assert_eq!(res, Ok(Effect::Nothing));
    let expected: Vec<String> = vec!["a".into(), "x".into(), "b".into()];
    assert_eq!(buffer, expected);
    // the cursor rests on the last inserted line
    assert_eq!(cfg.current_index, Some(1));
    // zero-length input is unknown and changes nothing
    let before = buffer.clone();
    let res = run_line("2i", no_text(), &mut buffer, &mut cfg);
    assert_eq!(res, Err(EdError::Unknown));
    assert_eq!(buffer, before);
}

#[test]
fn cursor_lands_on_last_inserted_line_wherever_it_was() {
    // insert before line 1 while the cursor sits at line 3
    let mut buffer: Vec<String> = vec!["a".into(), "b".into(), "c".into()];
    let mut cfg = Config::default();
    cfg.current_index = Some(2);
    let res = run_line("1i", vec!["x".into(), "y".into()], &mut buffer, &mut cfg);
    assert_eq!(res, Ok(Effect::Nothing));
    assert_eq!(cfg.current_index, Some(1));
    // change lines 1-2 while the cursor sits at the last line
    let mut buffer: Vec<String> = vec!["a".into(), "b".into(), "c".into()];
    let mut cfg = Config::default();
    cfg.current_index = Some(2);
    let res = run_line("1,2c", vec!["z".into()], &mut buffer, &mut cfg);
    assert_eq!(res, Ok(Effect::Nothing));
    let expected: Vec<String> = vec!["z".into(), "c".into()];
    assert_eq!(buffer, expected);
    assert_eq!(cfg.current_index, Some(0));
}

#[test]
fn print_on_empty_buffer_is_unknown() {
    let mut buffer: Vec<String> = vec![];
    let mut cfg = Config::default();
    let res = run_line("p", no_text(), &mut buffer, &mut cfg);
    assert_eq!(res, Err(EdError::Unknown));
    let res = run_line("n", no_text(), &mut buffer, &mut cfg);
    assert_eq!(res, Err(EdError::Unknown));
}

#[test]
fn numbered_print_pairs_one_based_numbers() {
    let mut buffer: Vec<String> = vec!["a".into(), "b".into(), "c".into()];
    let mut cfg = Config::default();
    let res = run_line("2,3n", no_text(), &mut buffer, &mut cfg);
    assert_eq!(
        res,
        Ok(Effect::PrintNumbered(vec![
            (2, "b".to_string()),
            (3, "c".to_string())
        ]))
    );
}

#[test]
fn toggles_flip_their_flag_only() {
    let mut buffer: Vec<String> = vec![];
    let mut cfg = Config::default();
    assert!(!cfg.show_prompt);
    let res = run_line("P", no_text(), &mut buffer, &mut cfg);
    assert_eq!(res, Ok(Effect::Nothing));
    assert!(cfg.show_prompt);
    assert!(!cfg.print_errors);
    let res = run_line("H", no_text(), &mut buffer, &mut cfg);
    assert_eq!(res, Ok(Effect::Nothing));
    assert!(cfg.print_errors);
}

#[test]
fn default_filename_accessors() {
    let mut buffer: Vec<String> = vec![];
    let mut cfg = Config::default();
    let res = run_line("f", no_text(), &mut buffer, &mut cfg);
    assert_eq!(res, Err(EdError::Unknown));
    let res = run_line("f notes.txt", no_text(), &mut buffer, &mut cfg);
    assert_eq!(res, Ok(Effect::Nothing));
    assert_eq!(cfg.default_filename, Some("notes.txt".to_string()));
    let res = run_line("f", no_text(), &mut buffer, &mut cfg);
    assert_eq!(res, Ok(Effect::Print(vec!["notes.txt".to_string()])));
}

#[test]
fn last_error_is_recorded_and_replayed() {
    let mut buffer: Vec<String> = vec![];
    let mut cfg = Config::default();
    // nothing recorded yet: a silent no-op
    let res = run_line("h", no_text(), &mut buffer, &mut cfg);
    assert_eq!(res, Ok(Effect::Print(vec![])));
    // the driver records a message error and shows `?` while display is off
    let shown = report_error(&mut cfg, &EdError::Msg("Mark not found".to_string()));
    assert_eq!(shown, Some("?".to_string()));
    assert_eq!(cfg.last_error, Some("Mark not found".to_string()));
    // with display on the message is shown verbatim
    cfg.print_errors = true;
    let shown = report_error(&mut cfg, &EdError::Msg("Could not open file".to_string()));
    assert_eq!(shown, Some("Could not open file".to_string()));
    // unknown is always `?`, exit shows nothing
    let shown = report_error(&mut cfg, &EdError::Unknown);
    assert_eq!(shown, Some("?".to_string()));
    let shown = report_error(&mut cfg, &EdError::Exit);
    assert_eq!(shown, None);
    // `h` replays the stored message
    let res = run_line("h", no_text(), &mut buffer, &mut cfg);
    assert_eq!(res, Ok(Effect::Print(vec!["Could not open file".to_string()])));
}

#[test]
fn mark_command_overwrites_and_skips_validation() {
    let mut buffer: Vec<String> = vec!["a".into(), "b".into()];
    let mut cfg = Config::default();
    let res = run_line("1kz", no_text(), &mut buffer, &mut cfg);
    assert_eq!(res, Ok(Effect::Nothing));
    assert_eq!(cfg.marks.get(&('z' as u32)), Some(&0));
    // marks are overwritten, and bounds are not re-validated
    let res = run_line("9kz", no_text(), &mut buffer, &mut cfg);
    assert_eq!(res, Ok(Effect::Nothing));
    assert_eq!(cfg.marks.get(&('z' as u32)), Some(&8));
    // the mark command neither moves the cursor nor dirties the session
    assert_eq!(cfg.current_index, None);
    assert!(!cfg.dirty);
}

#[test]
fn confirmation_is_wanted_only_for_dirty_quit_and_edit() {
    let mut cfg = Config::default();
    assert!(!Command::Quit.needs_confirmation(&cfg));
    cfg.dirty = true;
    assert!(Command::Quit.needs_confirmation(&cfg));
    assert!(Command::EditFile(Some("f.txt".to_string())).needs_confirmation(&cfg));
    // an edit with nothing to load fails before any prompt would matter
    assert!(!Command::EditFile(None).needs_confirmation(&cfg));
    cfg.default_filename = Some("d.txt".to_string());
    assert!(Command::EditFile(None).needs_confirmation(&cfg));
    assert!(!Command::UncondEditFile(None).needs_confirmation(&cfg));
    assert!(!Command::HardQuit.needs_confirmation(&cfg));
    assert!(Command::AppendText(None).collects_text());
    assert!(Command::InsertText(None).collects_text());
    assert!(Command::ChangeText(None).collects_text());
    assert!(!Command::Delete(None).collects_text());
}
