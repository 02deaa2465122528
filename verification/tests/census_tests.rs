use ruffle::census::{
    census_row, is_movie_file, panic_row, parse_failure_row, read_failure_row, ActionKind,
    ActionRead, TagKind, TagRecord, ACTION_KINDS, TAG_KINDS,
};

fn tag(kind: TagKind) -> TagRecord {
    TagRecord { kind, actions: Vec::new() }
}

fn do_action(actions: Vec<ActionRead>) -> TagRecord {
    TagRecord { kind: TagKind::DoAction, actions }
}

#[test]
fn column_indices() {
    assert_eq!(TagKind::ScriptLimits.index(), 0);
    assert_eq!(TagKind::DoAction.index(), 29);
    assert_eq!(TagKind::Unknown.index(), TAG_KINDS - 1);
    assert_eq!(ActionKind::Add.index(), 0);
    assert_eq!(ActionKind::Play.index(), 61);
    assert_eq!(ActionKind::Unknown.index(), ACTION_KINDS - 1);
}

#[test]
fn every_tag_and_action_is_counted() {
    let tags = vec![
        tag(TagKind::SetBackgroundColor),
        do_action(vec![
            ActionRead::Action(ActionKind::Play),
            ActionRead::Skipped,
            ActionRead::Action(ActionKind::Stop),
            ActionRead::Action(ActionKind::Play),
        ]),
        tag(TagKind::ShowFrame),
        tag(TagKind::ShowFrame),
        tag(TagKind::End),
    ];
    let row = census_row("a/b.swf".to_string(), 9, &tags);
    assert_eq!(row.file.as_deref(), Some("a/b.swf"));
    assert_eq!(row.error, None);
    assert_eq!(row.version, 9);
    assert_eq!(row.tag_counts.len(), TAG_KINDS);
    assert_eq!(row.action_counts.len(), ACTION_KINDS);
    assert_eq!(row.tag_counts[TagKind::ShowFrame.index()], 2);
    assert_eq!(row.tag_counts[TagKind::DoAction.index()], 1);
    assert_eq!(row.tag_counts[TagKind::End.index()], 1);
    assert_eq!(row.tag_counts[TagKind::SetBackgroundColor.index()], 1);
    assert_eq!(row.tag_counts.iter().sum::<i32>(), 5);
    assert_eq!(row.action_counts[ActionKind::Play.index()], 2);
    assert_eq!(row.action_counts[ActionKind::Stop.index()], 1);
    assert_eq!(row.action_counts.iter().sum::<i32>(), 3);
}

#[test]
fn a_failed_action_stops_the_count() {
    let tags = vec![
        tag(TagKind::ShowFrame),
        do_action(vec![
            ActionRead::Action(ActionKind::Push),
            ActionRead::Failed("unexpected end".to_string()),
            ActionRead::Action(ActionKind::Pop),
        ]),
        tag(TagKind::ShowFrame),
        tag(TagKind::End),
    ];
    let row = census_row("x.swf".to_string(), 6, &tags);
    assert_eq!(row.error.as_deref(), Some("Failed to parse action: unexpected end"));
    assert_eq!(row.tag_counts[TagKind::ShowFrame.index()], 1);
    assert_eq!(row.tag_counts[TagKind::DoAction.index()], 1);
    assert_eq!(row.tag_counts[TagKind::End.index()], 0);
    assert_eq!(row.action_counts[ActionKind::Push.index()], 1);
    assert_eq!(row.action_counts[ActionKind::Pop.index()], 0);
}

#[test]
fn an_empty_movie_counts_nothing() {
    let row = census_row("e.swf".to_string(), 10, &vec![]);
    assert_eq!(row.error, None);
    assert!(row.tag_counts.iter().all(|c| *c == 0));
    assert!(row.action_counts.iter().all(|c| *c == 0));
}

#[test]
fn failure_rows() {
    let r = read_failure_row("f.swf".to_string(), "denied");
    assert_eq!(r.error.as_deref(), Some("Failed to read file: denied"));
    assert_eq!(r.file.as_deref(), Some("f.swf"));
    assert_eq!(r.version, 0);
    assert_eq!(r.tag_counts, vec![0; TAG_KINDS]);
    assert_eq!(r.action_counts, vec![0; ACTION_KINDS]);
    let p = parse_failure_row("g.swf".to_string(), "bad header");
    assert_eq!(p.error.as_deref(), Some("Failed to parse swf: bad header"));
    let q = panic_row("h.swf".to_string(), "\"oops\"");
    assert_eq!(q.error.as_deref(), Some("PANIC: \"oops\""));
}

#[test]
fn only_swf_files_join_the_census() {
    assert!(is_movie_file(true, Some("swf")));
    assert!(!is_movie_file(false, Some("swf")));
    assert!(!is_movie_file(true, Some("SWF")));
    assert!(!is_movie_file(true, Some("swf2")));
    assert!(!is_movie_file(true, Some("sw")));
    assert!(!is_movie_file(true, None));
}
