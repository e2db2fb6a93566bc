use tsc_runtime::links::{name_scramble, LinkBook, LinkLeave};
use tsc_runtime::scramble::ScrambleFrame;

fn chars(s: &str) -> Vec<char> {
    s.chars().collect()
}

#[test]
fn first_hover_animates_once() {
    let mut book = LinkBook::new();
    assert!(book.should_animate(1));
    book.started(1, 42, chars("verdict"));
    assert!(!book.should_animate(1));
    assert!(book.should_animate(2));
}

#[test]
fn leave_restores_name_and_stops_timer() {
    let mut book = LinkBook::new();
    book.started(1, 42, chars("verdict"));
    match book.pointer_leave(1) {
        LinkLeave::Restore { timer, saved_name } => {
            assert_eq!(timer, 42);
            assert_eq!(saved_name, chars("verdict"));
        }
        LinkLeave::Idle => panic!("expected a running scramble"),
    }
    assert!(book.should_animate(1));
    assert!(matches!(book.pointer_leave(1), LinkLeave::Idle));
}

#[test]
fn finished_scramble_frees_link() {
    let mut book = LinkBook::new();
    book.started(5, 7, chars("mail"));
    book.finished(5);
    assert!(book.should_animate(5));
    assert!(matches!(book.pointer_leave(5), LinkLeave::Idle));
}

#[test]
fn other_links_are_untouched() {
    let mut book = LinkBook::new();
    book.started(1, 10, chars("a"));
    book.started(2, 20, chars("b"));
    book.finished(1);
    match book.pointer_leave(2) {
        LinkLeave::Restore { timer, saved_name } => {
            assert_eq!(timer, 20);
            assert_eq!(saved_name, chars("b"));
        }
        LinkLeave::Idle => panic!("expected a running scramble"),
    }
}

#[test]
fn name_scramble_returns_to_name() {
    let mut s = name_scramble(&chars("github"));
    let mut ticks = 0;
    loop {
        ticks += 1;
        let rolls = vec![3; s.rolls_needed()];
        if let ScrambleFrame::Settle { frame, text } = s.tick(&rolls) {
            assert_eq!(frame, chars("github"));
            assert_eq!(text, chars("github"));
            break;
        }
    }
    assert_eq!(ticks, 12);
}
