use tsc_runtime::glyphs::{glyph_at, glyph_count};
use tsc_runtime::scramble::{Scramble, ScrambleFrame};
use tsc_runtime::text::{joined, pad_chars, utf8_len};

fn chars(s: &str) -> Vec<char> {
    s.chars().collect()
}

fn text(v: &[char]) -> String {
    v.iter().collect()
}

fn glyphs() -> Vec<char> {
    (0..glyph_count()).map(glyph_at).collect()
}

/// Runs a scramble to its end with rolls taken in turn from `seed`, and
/// returns every frame shown and the settled text.
fn run_to_end(s: &mut Scramble, seed: usize) -> (Vec<String>, String) {
    let mut frames = Vec::new();
    let mut n = seed;
    loop {
        assert!(s.can_tick());
        let rolls: Vec<usize> = (0..s.rolls_needed())
            .map(|_| {
                n = n.wrapping_mul(31).wrapping_add(7) % 1000;
                n
            })
            .collect();
        match s.tick(&rolls) {
            ScrambleFrame::Show(f) => frames.push(text(&f)),
            ScrambleFrame::Settle { frame, text: settled } => {
                frames.push(text(&frame));
                assert!(s.is_finished());
                assert!(!s.can_tick());
                return (frames, text(&settled));
            }
        }
    }
}

#[test]
fn glyph_table_has_thirty_seven_glyphs() {
    assert_eq!(glyph_count(), 37);
    assert_eq!(glyph_at(0), '\u{2500}');
    assert_eq!(glyph_at(36), '\u{2666}');
}

#[test]
fn glyph_roll_is_clamped_to_last_glyph() {
    assert_eq!(glyph_at(37), '\u{2666}');
    assert_eq!(glyph_at(usize::MAX), '\u{2666}');
    assert_eq!(glyph_at(18), '\u{25CB}');
}

#[test]
fn utf8_len_counts_bytes() {
    assert_eq!(utf8_len(&chars("tsc.hk")), 6);
    assert_eq!(utf8_len(&chars("tsc.hk \u{2014} copied!")), 18);
    assert_eq!(utf8_len(&chars("\u{1F600}é")), 6);
    assert_eq!(utf8_len(&Vec::new()), 0);
}

#[test]
fn padding_fills_to_byte_width() {
    assert_eq!(text(&pad_chars(&chars("ab"), 5)), "ab   ");
    assert_eq!(text(&pad_chars(&chars("abcdef"), 3)), "abcdef");
    // the dash takes three bytes, so only one space is added
    assert_eq!(text(&pad_chars(&chars("a\u{2014}"), 5)), "a\u{2014} ");
}

#[test]
fn joined_concatenates() {
    assert_eq!(text(&joined(&chars("tsc"), &chars(".hk"))), "tsc.hk");
}

#[test]
fn between_scramble_settles_on_target() {
    let mut s = Scramble::between(&chars("the software company of hong kong"), &chars("tsc.hk"));
    assert_eq!(text(&s.frame()), "the software company of hong kong");
    let (frames, settled) = run_to_end(&mut s, 3);
    // 33 scatter ticks and 33 reveal ticks
    assert_eq!(frames.len(), 66);
    assert_eq!(frames.last().unwrap(), &format!("tsc.hk{}", " ".repeat(27)));
    assert_eq!(settled, "tsc.hk");
}

#[test]
fn scatter_phase_fills_with_glyphs_from_the_current_cell() {
    let table = glyphs();
    let mut s = Scramble::between(&chars("abcd"), &chars("wxyz"));
    assert_eq!(s.rolls_needed(), 4);
    match s.tick(&vec![0, 1, 2, 3]) {
        ScrambleFrame::Show(f) => assert_eq!(f, vec![table[0], table[1], table[2], table[3]]),
        _ => panic!("settled too early"),
    }
    assert_eq!(s.rolls_needed(), 3);
    match s.tick(&vec![40, 5, 6]) {
        // the first cell keeps its glyph; roll 40 is clamped to the last glyph
        ScrambleFrame::Show(f) => assert_eq!(f, vec![table[0], table[36], table[5], table[6]]),
        _ => panic!("settled too early"),
    }
}

#[test]
fn reveal_phase_uncovers_left_to_right() {
    let table = glyphs();
    let mut s = Scramble::between(&chars("ab"), &chars("xy"));
    s.tick(&vec![1, 2]);
    s.tick(&vec![3]);
    // the reveal needs no rolls
    assert_eq!(s.rolls_needed(), 0);
    match s.tick(&vec![]) {
        ScrambleFrame::Show(f) => assert_eq!(f, vec!['x', table[3]]),
        _ => panic!("settled too early"),
    }
    match s.tick(&vec![]) {
        ScrambleFrame::Settle { frame, text: settled } => {
            assert_eq!(frame, chars("xy"));
            assert_eq!(settled, chars("xy"));
        }
        _ => panic!("did not settle"),
    }
}

#[test]
fn scramble_of_shorter_source_pads_source() {
    let mut s = Scramble::between(&chars("ab"), &chars("wxyz"));
    assert_eq!(text(&s.frame()), "ab  ");
    let (frames, settled) = run_to_end(&mut s, 11);
    assert_eq!(frames.len(), 8);
    assert_eq!(frames.last().unwrap(), "wxyz");
    assert_eq!(settled, "wxyz");
}

#[test]
fn same_text_scramble_returns_to_itself() {
    let mut s = Scramble::between(&chars("project"), &chars("project"));
    let (frames, settled) = run_to_end(&mut s, 5);
    assert_eq!(frames.len(), 14);
    assert_eq!(settled, "project");
}

#[test]
fn suffix_reveal_keeps_prefix() {
    let mut s = Scramble::revealing_suffix(&chars("tsc.hk"), &chars("!?"));
    assert_eq!(text(&s.frame()), "tsc.hk  ");
    let (frames, settled) = run_to_end(&mut s, 2);
    assert_eq!(frames.len(), 4);
    for f in &frames {
        assert!(f.starts_with("tsc.hk"));
    }
    assert_eq!(frames.last().unwrap(), "tsc.hk!?");
    assert_eq!(settled, "tsc.hk!?");
}

#[test]
fn empty_scramble_cannot_tick() {
    let s = Scramble::between(&Vec::new(), &Vec::new());
    assert!(!s.can_tick());
    assert!(!s.is_finished());
}

#[test]
fn multibyte_source_cannot_tick() {
    let s = Scramble::between(&chars("tsc.hk \u{2014} copied!"), &chars("the software company of hong kong"));
    assert!(!s.can_tick());
}
