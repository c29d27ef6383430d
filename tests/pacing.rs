use aichat::pacing::{split_units, Pacer, Unit};

fn texts(p: &[aichat::pacing::Emission]) -> Vec<String> {
    p.iter().map(|e| e.text.clone()).collect()
}

#[test]
fn word_mode_hello_world() {
    let mut pacer = Pacer::new(Unit::Word, false);
    let plan = pacer.plan("hello world!");
    assert_eq!(texts(&plan), vec!["hello ".to_string(), "world!".to_string()]);
    assert!(!plan[0].pause_before);
    assert!(plan[1].pause_before);
}

#[test]
fn character_mode_n_events() {
    let mut pacer = Pacer::new(Unit::Character, false);
    let plan = pacer.plan("abcé");
    assert_eq!(texts(&plan), vec!["a", "b", "c", "é"]);
    let pauses: Vec<bool> = plan.iter().map(|e| e.pause_before).collect();
    assert_eq!(pauses, vec![false, true, true, true]);
}

#[test]
fn word_boundaries() {
    assert_eq!(split_units("a,b c", Unit::Word), vec!["a,", "b ", "c"]);
    assert_eq!(split_units("path/to x", Unit::Word), vec!["path/", "to ", "x"]);
    assert_eq!(split_units("tab\there\n", Unit::Word), vec!["tab\t", "here\n"]);
    assert_eq!(split_units("  ", Unit::Word), vec![" ", " "]);
    assert_eq!(split_units("no\u{3000}gap", Unit::Word), vec!["no\u{3000}", "gap"]);
}

#[test]
fn empty_text_plans_nothing() {
    let mut pacer = Pacer::new(Unit::Word, false);
    assert!(pacer.plan("").is_empty());
    assert!(!pacer.pause_pending);
    let mut bypass = Pacer::new(Unit::Word, true);
    assert!(bypass.plan("").is_empty());
}

#[test]
fn bypass_emits_whole_fragment() {
    let mut pacer = Pacer::new(Unit::Word, true);
    let first = pacer.plan("one two");
    let second = pacer.plan("three");
    assert_eq!(texts(&first), vec!["one two"]);
    assert_eq!(texts(&second), vec!["three"]);
    assert!(!first[0].pause_before);
    assert!(!second[0].pause_before);
}

#[test]
fn pause_carries_across_fragments() {
    let mut pacer = Pacer::new(Unit::Word, false);
    let a = pacer.plan("The ");
    let b = pacer.plan("quick fox");
    assert!(!a[0].pause_before);
    assert_eq!(texts(&b), vec!["quick ", "fox"]);
    assert!(b[0].pause_before && b[1].pause_before);
}

#[test]
fn units_join_back() {
    let text = "Hello, wörld! It's\tfine.";
    for unit in [Unit::Word, Unit::Character] {
        assert_eq!(split_units(text, unit).concat(), text);
    }
}

#[test]
fn word_split_between_fragments_is_not_paused() {
    let mut pacer = Pacer::new(Unit::Word, false);
    let a = pacer.plan("Hel");
    assert!(!pacer.pause_pending);
    let b = pacer.plan("lo world");
    assert_eq!(texts(&a), vec!["Hel"]);
    assert_eq!(texts(&b), vec!["lo ", "world"]);
    assert!(!b[0].pause_before);
    assert!(b[1].pause_before);
    let c = pacer.plan("!");
    assert!(!c[0].pause_before);
    assert!(pacer.pause_pending);
    let d = pacer.plan("next");
    assert!(d[0].pause_before);
}

#[test]
fn characters_pause_across_fragments() {
    let mut pacer = Pacer::new(Unit::Character, false);
    let a = pacer.plan("ab");
    let b = pacer.plan("c");
    assert!(!a[0].pause_before && a[1].pause_before);
    assert!(b[0].pause_before);
}
