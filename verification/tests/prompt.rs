use commit_prompt::prompt::{complete, finish_entry, highlight_hint, hint, Aborted, ReadEvent};

#[test]
fn complete_offers_keywords_matching_a_prefix() {
    let (start, candidates) = complete("f");
    assert_eq!(start, 0);
    let replacements: Vec<&str> = candidates.iter().map(|c| c.replacement.as_str()).collect();
    assert_eq!(replacements, vec!["fn", "for"]);
    for candidate in &candidates {
        assert_eq!(candidate.display, candidate.replacement);
    }
}

#[test]
fn complete_on_empty_line_offers_every_keyword() {
    let (start, candidates) = complete("");
    assert_eq!(start, 0);
    let replacements: Vec<&str> = candidates.iter().map(|c| c.replacement.as_str()).collect();
    assert_eq!(
        replacements,
        vec!["fn", "let", "mut", "struct", "enum", "impl", "for", "loop", "match"]
    );
}

#[test]
fn complete_on_full_keyword_offers_that_keyword() {
    let (start, candidates) = complete("struct");
    assert_eq!(start, 0);
    assert_eq!(candidates.len(), 1);
    assert_eq!(candidates[0].replacement, "struct");
}

#[test]
fn complete_with_no_matching_keyword_offers_nothing() {
    let (_, candidates) = complete("zebra");
    assert!(candidates.is_empty());
    let (_, candidates) = complete("fnx");
    assert!(candidates.is_empty());
}

#[test]
fn hint_is_the_suffix_of_the_matching_label() {
    assert_eq!(hint("fe"), "at: ");
    assert_eq!(hint("d"), "ocs: ");
    assert_eq!(hint("refac"), "tor: ");
    assert_eq!(hint("t"), "est: ");
}

#[test]
fn hint_on_full_label_is_only_the_separator() {
    for label in ["feat", "fix", "docs", "style", "refactor", "perf", "test", "chore"] {
        assert_eq!(hint(label), ": ");
    }
}

#[test]
fn hint_on_empty_line_is_empty() {
    assert_eq!(hint(""), "");
}

#[test]
fn hint_with_no_matching_label_is_empty() {
    assert_eq!(hint("zzz"), "");
    assert_eq!(hint("feats"), "");
}

#[test]
fn hint_takes_the_first_matching_label_every_time() {
    assert_eq!(hint("f"), "eat: ");
    assert_eq!(hint("f"), "eat: ");
}

#[test]
fn highlight_hint_wraps_the_text_in_dim_escapes() {
    assert_eq!(highlight_hint("eat: "), "\x1b[2meat: \x1b[m");
    assert_eq!(highlight_hint(""), "\x1b[2m\x1b[m");
}

#[test]
fn finish_entry_submits_the_line_exactly_as_typed() {
    match finish_entry(ReadEvent::Line("  feat: add prompt  ".to_string())) {
        Ok(line) => assert_eq!(line, "  feat: add prompt  "),
        Err(_) => panic!("a read line must be submitted"),
    }
}

#[test]
fn interrupt_aborts_entry() {
    assert!(matches!(
        finish_entry(ReadEvent::Interrupted),
        Err(Aborted::Interrupted)
    ));
}

#[test]
fn end_of_input_aborts_entry() {
    assert!(matches!(
        finish_entry(ReadEvent::EndOfInput),
        Err(Aborted::EndOfInput)
    ));
}

#[test]
fn transport_failure_aborts_entry_with_its_detail() {
    match finish_entry(ReadEvent::TransportFailed("broken pipe".to_string())) {
        Err(Aborted::TransportFailed(detail)) => assert_eq!(detail, "broken pipe"),
        _ => panic!("a transport failure must abort entry"),
    }
}
