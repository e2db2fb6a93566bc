//! The heading: it scrambles into its short name while hovered, back into the
//! full name when left, and on a click copies the short name and reveals a
//! "copied" note before scrambling back.

use vstd::prelude::*;

use crate::scramble::{between_model, reveal_model, Scramble};
use crate::text::byte_width;

verus! {

/// The full name shown at rest.
pub open spec fn full_title() -> Seq<char> {
    seq![
        't', 'h', 'e', ' ', 's', 'o', 'f', 't', 'w', 'a', 'r',
        'e', ' ', 'c', 'o', 'm', 'p', 'a', 'n', 'y', ' ', 'o',
        'f', ' ', 'h', 'o', 'n', 'g', ' ', 'k', 'o', 'n', 'g',
    ]
}

/// The short name shown while hovered, and copied on a click.
pub open spec fn short_title() -> Seq<char> {
    seq![
        't', 's', 'c', '.', 'h', 'k',
    ]
}

/// The note revealed after the short name once it has been copied.
pub open spec fn copied_note() -> Seq<char> {
    seq![
        ' ', '\u{2014}', ' ', 'c', 'o', 'p', 'i', 'e', 'd', '!',
    ]
}

/// Which of the two names an animation settles on.
#[derive(Clone, Copy, Debug, PartialEq, Eq)]
pub enum Title {
    Full,
    Short,
}

/// The characters of a name.
pub open spec fn title_chars(title: Title) -> Seq<char> {
    match title {
        Title::Full => full_title(),
        Title::Short => short_title(),
    }
}

/// The full name.
pub fn full_title_chars() -> (v: Vec<char>)
    ensures
        v@ == full_title(),
{
    let v: Vec<char> = vec![
        't', 'h', 'e', ' ', 's', 'o', 'f', 't', 'w', 'a', 'r',
        'e', ' ', 'c', 'o', 'm', 'p', 'a', 'n', 'y', ' ', 'o',
        'f', ' ', 'h', 'o', 'n', 'g', ' ', 'k', 'o', 'n', 'g',
    ];
    assert(v@ =~= full_title());
    v
}

/// The short name.
pub fn short_title_chars() -> (v: Vec<char>)
    ensures
        v@ == short_title(),
{
    let v: Vec<char> = vec![
        't', 's', 'c', '.', 'h', 'k',
    ];
    assert(v@ =~= short_title());
    v
}

/// The "copied" note.
pub fn copied_note_chars() -> (v: Vec<char>)
    ensures
        v@ == copied_note(),
{
    let v: Vec<char> = vec![
        ' ', '\u{2014}', ' ', 'c', 'o', 'p', 'i', 'e', 'd', '!',
    ];
    assert(v@ =~= copied_note());
    v
}

/// The characters of a name.
pub fn title_text(title: Title) -> (v: Vec<char>)
    ensures
        v@ == title_chars(title),
{
    match title {
        Title::Full => full_title_chars(),
        Title::Short => short_title_chars(),
    }
}

/// What the page does in answer to a pointer event on the heading.
#[derive(Clone, Copy, Debug, PartialEq, Eq)]
pub enum HeadingCue {
    /// Nothing.
    Stay,
    /// Stop the interval timer `stop`, if there is one, and scramble the
    /// heading into `to`.
    Animate { stop: Option<i32>, to: Title },
}

/// The timers the page stops when the heading is clicked.
#[derive(Clone, Copy, Debug, PartialEq, Eq)]
pub struct CopyCue {
    /// The heading's animation timer.
    pub stop: Option<i32>,
    /// The timer of the "copied" reveal.
    pub stop_reveal: Option<i32>,
}

/// The heading's interaction state.
#[derive(Clone, Copy, Debug, PartialEq, Eq)]
pub struct HeadingState {
    /// The pointer is over the heading.
    pub hovered: bool,
    /// An animation started by a hover or a click has not finished yet.
    pub animating: bool,
    /// The interval timer of the heading's current scramble.
    pub timer: Option<i32>,
    /// The interval timer of the "copied" reveal.
    pub reveal_timer: Option<i32>,
}

impl HeadingState {
    /// The state after the pointer enters the heading.
    pub open spec fn entered(self) -> HeadingState {
        if self.hovered {
            self
        } else if self.animating {
            HeadingState { hovered: true, ..self }
        } else {
            HeadingState { hovered: true, animating: true, timer: None, ..self }
        }
    }

    /// What the page does when the pointer enters the heading.
    pub open spec fn enter_cue(self) -> HeadingCue {
        if self.hovered || self.animating {
            HeadingCue::Stay
        } else {
            HeadingCue::Animate { stop: self.timer, to: Title::Short }
        }
    }

    /// The state after the pointer leaves the heading for `still_inside`
    /// (whether it moved onto something inside the heading).
    pub open spec fn left(self, still_inside: bool) -> HeadingState {
        if still_inside {
            self
        } else {
            HeadingState { hovered: false, timer: None, ..self }
        }
    }

    /// What the page does when the pointer leaves the heading.
    pub open spec fn leave_cue(self, still_inside: bool) -> HeadingCue {
        if still_inside {
            HeadingCue::Stay
        } else {
            HeadingCue::Animate { stop: self.timer, to: Title::Full }
        }
    }

    /// The state after a click on the heading.
    pub open spec fn clicked(self) -> HeadingState {
        HeadingState { animating: true, timer: None, reveal_timer: None, ..self }
    }

    /// The state at page start.
    pub fn new() -> (s: HeadingState)
        ensures
            !s.hovered,
            !s.animating,
            s.timer is None,
            s.reveal_timer is None,
    {
        HeadingState { hovered: false, animating: false, timer: None, reveal_timer: None }
    }

    /// The pointer entered the heading (and not merely moved between its
    /// children): the first entry while nothing runs scrambles into the short
    /// name, stopping the current timer.
    pub fn pointer_enter(&mut self) -> (cue: HeadingCue)
        ensures
            *final(self) == old(self).entered(),
            cue == old(self).enter_cue(),
            old(self).hovered ==> cue == HeadingCue::Stay && *final(self) == *old(self),
            !old(self).hovered && old(self).animating ==> cue == HeadingCue::Stay,
            !old(self).hovered && !old(self).animating ==> cue == (HeadingCue::Animate {
                stop: old(self).timer,
                to: Title::Short,
            }),
            final(self).hovered,
    {
        if self.hovered {
            return HeadingCue::Stay;
        }
        self.hovered = true;
        if self.animating {
            return HeadingCue::Stay;
        }
        self.animating = true;
        let stop = self.timer;
        self.timer = None;
        HeadingCue::Animate { stop, to: Title::Short }
    }

    /// The pointer left the heading; `still_inside` tells whether it moved
    /// onto something inside the heading. Leaving for good scrambles back into
    /// the full name, stopping the current timer.
    pub fn pointer_leave(&mut self, still_inside: bool) -> (cue: HeadingCue)
        ensures
            *final(self) == old(self).left(still_inside),
            cue == old(self).leave_cue(still_inside),
            still_inside ==> cue == HeadingCue::Stay && *final(self) == *old(self),
            !still_inside ==> cue == (HeadingCue::Animate { stop: old(self).timer, to: Title::Full }),
            !still_inside ==> !final(self).hovered && final(self).timer is None,
    {
        if still_inside {
            return HeadingCue::Stay;
        }
        self.hovered = false;
        let stop = self.timer;
        self.timer = None;
        HeadingCue::Animate { stop, to: Title::Full }
    }

    /// The heading was clicked: both timers stop and an animation is under
    /// way until the copy has been shown.
    pub fn click(&mut self) -> (cue: CopyCue)
        ensures
            *final(self) == old(self).clicked(),
            cue == (CopyCue { stop: old(self).timer, stop_reveal: old(self).reveal_timer }),
    {
        let cue = CopyCue { stop: self.timer, stop_reveal: self.reveal_timer };
        self.animating = true;
        self.timer = None;
        self.reveal_timer = None;
        cue
    }

    /// A heading scramble now runs on the interval timer `id`.
    pub fn animation_started(&mut self, id: i32)
        ensures
            *final(self) == (HeadingState { timer: Some(id), ..*old(self) }),
    {
        self.timer = Some(id);
    }

    /// The "copied" reveal now runs on the interval timer `id`.
    pub fn reveal_started(&mut self, id: i32)
        ensures
            *final(self) == (HeadingState { reveal_timer: Some(id), ..*old(self) }),
    {
        self.reveal_timer = Some(id);
    }

    /// A heading scramble has settled.
    pub fn animation_done(&mut self)
        ensures
            *final(self) == (HeadingState { animating: false, ..*old(self) }),
    {
        self.animating = false;
    }
}

/// The scramble from the heading's current text into the name `to`.
pub fn title_scramble(current: &Vec<char>, to: Title) -> (s: Scramble)
    requires
        byte_width(current@) <= usize::MAX,
    ensures
        s@ == between_model(current@, title_chars(to)),
{
    let target = title_text(to);
    proof {
        crate::text::lemma_byte_width_bounds(target@);
    }
    Scramble::between(current, &target)
}

/// The reveal of the "copied" note after the short name.
pub fn copied_reveal() -> (s: Scramble)
    ensures
        s@ == reveal_model(short_title(), copied_note()),
{
    Scramble::revealing_suffix(&short_title_chars(), &copied_note_chars())
}

/// Entering twice is entering once: the second entry changes nothing and
/// starts nothing.
pub proof fn lemma_enter_idempotent(s: HeadingState)
    ensures
        s.entered().entered() == s.entered(),
        s.entered().enter_cue() == HeadingCue::Stay,
{
}

/// Moving between the heading's own children changes nothing and starts
/// nothing.
pub proof fn lemma_leave_inside_is_ignored(s: HeadingState)
    ensures
        s.left(true) == s,
        s.leave_cue(true) == HeadingCue::Stay,
{
}

/// A hover animation does not restart while one is under way: after an entry
/// that starts one, leaving and entering again starts nothing until the
/// animation reports that it is done; after that a new entry starts one again.
pub proof fn lemma_hover_waits_for_animation(s: HeadingState)
    requires
        s.enter_cue() is Animate,
    ensures
        s.entered().left(false).enter_cue() == HeadingCue::Stay,
        (HeadingState { animating: false, ..s.entered().left(false) }).enter_cue() is Animate,
{
}

/// After a click no hover animation starts until the click's animations are
/// done.
pub proof fn lemma_click_blocks_hover(s: HeadingState)
    ensures
        s.clicked().enter_cue() == HeadingCue::Stay,
        s.clicked().left(false).entered().animating,
{
}

/// No timer is lost: whenever the heading starts a new scramble or is
/// clicked, the timers it held are handed back to be stopped and it holds
/// none; when nothing starts, its timers stay as they were.
pub proof fn lemma_timers_handed_back(s: HeadingState, still_inside: bool)
    ensures
        s.enter_cue() matches HeadingCue::Animate { stop, .. } ==> stop == s.timer
            && s.entered().timer is None,
        s.enter_cue() is Stay ==> s.entered().timer == s.timer,
        s.leave_cue(still_inside) matches HeadingCue::Animate { stop, .. } ==> stop == s.timer
            && s.left(still_inside).timer is None,
        s.leave_cue(still_inside) is Stay ==> s.left(still_inside).timer == s.timer,
        s.entered().reveal_timer == s.reveal_timer,
        s.left(still_inside).reveal_timer == s.reveal_timer,
        s.clicked().timer is None && s.clicked().reveal_timer is None,
{
}

/// The "copied" reveal runs for twice as many ticks as the note has
/// characters and then shows the short name followed by the note.
pub proof fn lemma_copied_reveal_settles(rolls: spec_fn(nat) -> Seq<usize>)
    ensures
        ({
            let m = reveal_model(short_title(), copied_note());
            let end = crate::scramble::run(m, rolls, 2 * m.total);
            &&& m.total == copied_note().len()
            &&& end.finished()
            &&& end.frame() == short_title() + copied_note()
            &&& end.settled_text == short_title() + copied_note()
        }),
{
    crate::scramble::lemma_reveal_settles(short_title(), copied_note(), rolls);
}

/// The scramble back from the copied text (the short name and the note, whose
/// dash takes three bytes) into the full name has fewer cells than its width,
/// so its first tick cannot run.
pub proof fn lemma_copied_text_cannot_scramble_back()
    ensures
        !between_model(short_title() + copied_note(), full_title()).can_tick(),
{
    let from = short_title() + copied_note();
    assert(from[7] == '\u{2014}');
    assert(!crate::text::all_ascii(from));
    crate::scramble::lemma_multibyte_source_cannot_tick(from, full_title());
}

/// Entering the heading, for every state: while it is already hovered nothing
/// starts and nothing changes, whatever else holds; otherwise it becomes
/// hovered, and unless an animation runs it scrambles into the short name,
/// stopping exactly the timer it held.
pub proof fn lemma_enter_answers(s: HeadingState)
    ensures
        s.hovered ==> s.enter_cue() == HeadingCue::Stay && s.entered() == s,
        !s.hovered ==> s.entered().hovered && s.entered().reveal_timer == s.reveal_timer,
        !s.hovered && s.animating ==> s.enter_cue() == HeadingCue::Stay && s.entered()
            == (HeadingState { hovered: true, ..s }),
        !s.hovered && !s.animating ==> s.enter_cue() == (HeadingCue::Animate {
            stop: s.timer,
            to: Title::Short,
        }) && s.entered() == (HeadingState {
            hovered: true,
            animating: true,
            timer: None,
            reveal_timer: s.reveal_timer,
        }),
{
}

/// Leaving the heading for good, for every state: it always scrambles back into
/// the full name, stopping exactly the timer it held, whether or not an
/// animation runs; it is no longer hovered, holds no timer, and nothing else
/// changes.
pub proof fn lemma_leave_answers(s: HeadingState)
    ensures
        s.leave_cue(false) == (HeadingCue::Animate { stop: s.timer, to: Title::Full }),
        s.left(false) == (HeadingState {
            hovered: false,
            animating: s.animating,
            timer: None,
            reveal_timer: s.reveal_timer,
        }),
        title_chars(Title::Full) == full_title(),
{
}

} // verus!
