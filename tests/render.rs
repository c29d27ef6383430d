use aichat::pacing::{Emission, Unit};
use aichat::render::{tail_line, Action, RenderConfig, RenderError, RenderMessage, ResponseRenderer};
use aichat::status::{format_clock, status_line, transition, Status};

fn config(pure: bool, rate: u32, unit: Unit) -> RenderConfig {
    RenderConfig {
        pure,
        model_config_name: "work".to_string(),
        model_name: "gpt-x".to_string(),
        prompt_config_name: "terse".to_string(),
        type_speed: rate,
        disable_stream: false,
        unit,
    }
}

fn drawn(actions: &[Action]) -> Vec<Status> {
    actions
        .iter()
        .filter_map(|a| match a {
            Action::DrawStatus { status, .. } => Some(*status),
            _ => None,
        })
        .collect()
}

fn completions(actions: &[Action]) -> usize {
    actions.iter().filter(|a| matches!(a, Action::Complete)).count()
}

fn texts(p: &[Emission]) -> Vec<String> {
    p.iter().map(|e| e.text.clone()).collect()
}

#[test]
fn end_to_end_word_pacing() {
    let renderer = ResponseRenderer::new();
    let (mut s, opening) = renderer.start_render(config(false, 2, Unit::Word)).unwrap();
    assert_eq!(drawn(&opening), vec![Status::Responding]);
    assert_eq!(s.interval_nanos(), 500_000_000);
    assert!(s.on_message(RenderMessage::Content("The ".to_string()), 10).is_empty());
    assert!(s.on_message(RenderMessage::Content("quick fox".to_string()), 20).is_empty());
    s.on_close();
    let first = s.next_fragment().unwrap();
    let second = s.next_fragment().unwrap();
    assert!(s.next_fragment().is_none());
    assert_eq!(texts(&first), vec!["The "]);
    assert_eq!(texts(&second), vec!["quick ", "fox"]);
    assert!(!first[0].pause_before);
    assert!(second[0].pause_before && second[1].pause_before);
    let fin = s.finish(1500);
    assert_eq!(drawn(&fin), vec![Status::Done]);
    assert!(matches!(fin[1], Action::NewLine));
    assert_eq!(completions(&fin), 1);
    match &fin[0] {
        Action::DrawStatus { line, .. } => {
            assert_eq!(line, " \u{2714}  00:01  model: work(gpt-x)    prompt: terse")
        }
        _ => panic!("status line expected first"),
    }
}

#[test]
fn zero_rate_is_refused() {
    let renderer = ResponseRenderer::new();
    assert!(matches!(
        renderer.start_render(config(false, 0, Unit::Word)),
        Err(RenderError::ZeroRate)
    ));
}

#[test]
fn interval_is_one_second_over_rate() {
    let renderer = ResponseRenderer::new();
    let (s, _) = renderer.start_render(config(true, 30, Unit::Character)).unwrap();
    assert_eq!(s.interval_nanos(), 33_333_333);
}

#[test]
fn pure_mode_draws_no_status() {
    let renderer = ResponseRenderer::new();
    let (mut s, opening) = renderer.start_render(config(true, 5, Unit::Word)).unwrap();
    assert!(opening.is_empty());
    assert!(s.on_message(RenderMessage::SetStatus(Status::Error), 5).is_empty());
    assert!(s.on_tick(5_000).is_empty());
    s.on_close();
    let fin = s.finish(6_000);
    assert!(drawn(&fin).is_empty());
    assert_eq!(completions(&fin), 1);
}

#[test]
fn terminal_status_never_changes() {
    let renderer = ResponseRenderer::new();
    let (mut s, _) = renderer.start_render(config(false, 5, Unit::Word)).unwrap();
    assert_eq!(s.status(), Status::Responding);
    let a = s.on_message(RenderMessage::SetStatus(Status::Responding), 1);
    assert!(a.is_empty());
    let b = s.on_message(RenderMessage::SetStatus(Status::Error), 2);
    assert_eq!(drawn(&b), vec![Status::Error]);
    let c = s.on_message(RenderMessage::SetStatus(Status::Done), 3);
    assert!(c.is_empty());
    assert_eq!(s.status(), Status::Error);
    s.on_close();
    let fin = s.finish(4);
    assert_eq!(drawn(&fin), vec![Status::Error]);
    assert_eq!(transition(Status::Done, Status::Error), Status::Done);
    assert_eq!(transition(Status::Responding, Status::Done), Status::Done);
}

#[test]
fn empty_response_completes_once() {
    let renderer = ResponseRenderer::new();
    let (mut s, _) = renderer.start_render(config(false, 5, Unit::Word)).unwrap();
    s.on_close();
    assert!(s.next_fragment().is_none());
    let fin = s.finish(0);
    assert_eq!(completions(&fin), 1);
    assert!(s.is_completed());
    assert!(s.finish(10).is_empty());
}

#[test]
fn closing_twice_and_late_stop() {
    let renderer = ResponseRenderer::new();
    let (mut s, _) = renderer.start_render(config(false, 5, Unit::Word)).unwrap();
    s.on_message(RenderMessage::Content("a".to_string()), 0);
    s.on_close();
    s.on_close();
    assert!(s.on_message(RenderMessage::Stop, 1).is_empty());
    assert!(s.on_message(RenderMessage::Content("late".to_string()), 1).is_empty());
    assert!(s.finish(2).is_empty());
    assert_eq!(texts(&s.next_fragment().unwrap()), vec!["a"]);
    assert!(s.next_fragment().is_none());
    let fin = s.finish(3);
    assert_eq!(completions(&fin), 1);
    assert!(s.finish(4).is_empty());
    s.on_close();
    assert!(s.finish(5).is_empty());
}

#[test]
fn stop_message_closes() {
    let renderer = ResponseRenderer::new();
    let (mut s, _) = renderer.start_render(config(false, 5, Unit::Word)).unwrap();
    assert!(!s.is_closed());
    s.on_message(RenderMessage::Stop, 0);
    assert!(s.is_closed());
    assert_eq!(completions(&s.finish(0)), 1);
}

#[test]
fn all_content_comes_out_in_order() {
    let renderer = ResponseRenderer::new();
    let (mut s, _) = renderer.start_render(config(false, 50, Unit::Character)).unwrap();
    let fragments = ["Hel", "", "lo, ", "wörld", "!"];
    let mut out = String::new();
    for (i, f) in fragments.iter().enumerate() {
        s.on_message(RenderMessage::Content(f.to_string()), i as u64);
        if i % 2 == 0 {
            while let Some(plan) = s.next_fragment() {
                for e in plan {
                    out.push_str(&e.text);
                }
            }
        }
    }
    s.on_close();
    while let Some(plan) = s.next_fragment() {
        for e in plan {
            out.push_str(&e.text);
        }
    }
    assert_eq!(out, fragments.concat());
    assert_eq!(completions(&s.finish(100)), 1);
}

#[test]
fn status_redraws_on_refresh_interval() {
    let renderer = ResponseRenderer::new();
    let (mut s, _) = renderer.start_render(config(false, 5, Unit::Word)).unwrap();
    assert!(s.on_tick(999).is_empty());
    assert_eq!(drawn(&s.on_tick(1000)), vec![Status::Responding]);
    assert!(s.on_tick(1500).is_empty());
    assert_eq!(drawn(&s.on_tick(2000)), vec![Status::Responding]);
    s.on_close();
    s.finish(2100);
    assert!(s.on_tick(9000).is_empty());
}

#[test]
fn clock_and_lines() {
    assert_eq!(format_clock(0), "00:00");
    assert_eq!(format_clock(65_999), "01:05");
    assert_eq!(format_clock(6_000_000), "100:00");
    assert_eq!(
        status_line(Status::Responding, 12_000, "a", "b", "c"),
        " >  00:12  model: a(b)    prompt: c"
    );
}

#[test]
fn tail_line_shows_duration_debug_form() {
    let r = ResponseRenderer::new();
    assert_eq!(r.render_tail_bar(1_500_000_000, false).as_deref(), Some("\n\u{2705}1.5s\n"));
    assert_eq!(r.render_tail_bar(850_000_000, false).as_deref(), Some("\n\u{2705}850ms\n"));
    assert_eq!(r.render_tail_bar(61_000_000_000, false).as_deref(), Some("\n\u{2705}61s\n"));
    assert_eq!(r.render_tail_bar(1_500_000_000, true), None);
    assert_eq!(tail_line("2s"), "\n\u{2705}2s\n");
}
