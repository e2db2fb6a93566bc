use tsc_runtime::heading::{
    copied_note_chars, copied_reveal, full_title_chars, short_title_chars, title_scramble,
    title_text, CopyCue, HeadingCue, HeadingState, Title,
};
use tsc_runtime::scramble::ScrambleFrame;

fn text(v: &[char]) -> String {
    v.iter().collect()
}

#[test]
fn titles_have_their_text() {
    assert_eq!(text(&full_title_chars()), "the software company of hong kong");
    assert_eq!(text(&short_title_chars()), "tsc.hk");
    assert_eq!(text(&copied_note_chars()), " \u{2014} copied!");
    assert_eq!(text(&title_text(Title::Short)), "tsc.hk");
    assert_eq!(text(&title_text(Title::Full)), "the software company of hong kong");
}

#[test]
fn enter_scrambles_to_short_name() {
    let mut h = HeadingState::new();
    assert_eq!(h.pointer_enter(), HeadingCue::Animate { stop: None, to: Title::Short });
    assert!(h.hovered && h.animating);
    h.animation_started(4);
    assert_eq!(h.timer, Some(4));
}

#[test]
fn second_enter_is_ignored() {
    let mut h = HeadingState::new();
    h.pointer_enter();
    let before = h;
    assert_eq!(h.pointer_enter(), HeadingCue::Stay);
    assert_eq!(h, before);
}

#[test]
fn enter_while_animating_only_marks_hover() {
    let mut h = HeadingState::new();
    h.pointer_enter();
    h.animation_started(9);
    assert_eq!(h.pointer_leave(false), HeadingCue::Animate { stop: Some(9), to: Title::Full });
    assert_eq!(h.timer, None);
    h.animation_started(10);
    // the short-name animation has not reported done yet
    assert_eq!(h.pointer_enter(), HeadingCue::Stay);
    assert!(h.hovered);
    assert_eq!(h.timer, Some(10));
    h.animation_done();
    h.pointer_leave(false);
    assert_eq!(h.pointer_enter(), HeadingCue::Animate { stop: None, to: Title::Short });
}

#[test]
fn leave_inside_heading_is_ignored() {
    let mut h = HeadingState::new();
    h.pointer_enter();
    h.animation_started(2);
    let before = h;
    assert_eq!(h.pointer_leave(true), HeadingCue::Stay);
    assert_eq!(h, before);
}

#[test]
fn click_stops_both_timers() {
    let mut h = HeadingState::new();
    h.animation_started(3);
    h.reveal_started(8);
    assert_eq!(h.click(), CopyCue { stop: Some(3), stop_reveal: Some(8) });
    assert_eq!(h.timer, None);
    assert_eq!(h.reveal_timer, None);
    assert!(h.animating);
    assert_eq!(h.pointer_enter(), HeadingCue::Stay);
}

#[test]
fn copied_reveal_ends_with_note() {
    let mut s = copied_reveal();
    assert_eq!(text(&s.frame()), format!("tsc.hk{}", " ".repeat(10)));
    let mut ticks = 0;
    loop {
        let rolls = vec![7; s.rolls_needed()];
        ticks += 1;
        match s.tick(&rolls) {
            ScrambleFrame::Show(f) => assert!(text(&f).starts_with("tsc.hk")),
            ScrambleFrame::Settle { frame, text: settled } => {
                assert_eq!(text(&frame), "tsc.hk \u{2014} copied!");
                assert_eq!(text(&settled), "tsc.hk \u{2014} copied!");
                break;
            }
        }
    }
    assert_eq!(ticks, 20);
}

#[test]
fn heading_scrambles_between_titles() {
    let mut s = title_scramble(&full_title_chars(), Title::Short);
    let mut last = None;
    while s.can_tick() {
        let rolls = vec![1; s.rolls_needed()];
        if let ScrambleFrame::Settle { text: settled, .. } = s.tick(&rolls) {
            last = Some(text(&settled));
        }
    }
    assert_eq!(last.as_deref(), Some("tsc.hk"));
}

#[test]
fn copied_text_cannot_scramble_back() {
    let mut current = short_title_chars();
    current.extend(copied_note_chars());
    let s = title_scramble(&current, Title::Full);
    assert!(!s.can_tick());
}
