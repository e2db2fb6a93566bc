//! The scramble animation: a row of cells is first overwritten with random
//! glyphs, one sweep per tick, and then revealed left to right, one cell per
//! tick, until it shows its goal text.
//!
//! The animation is driven from outside: a timer calls [`Scramble::tick`] with
//! as many random rolls as [`Scramble::rolls_needed`] asks for, and shows the
//! frame that comes back.

use vstd::prelude::*;

use crate::glyphs::{glyph_at, glyph_for, is_glyph};
use crate::text::{
    all_ascii, byte_width, joined, lemma_byte_width_bounds, pad_chars,
    pad_to_width, spaces,
};

verus! {

/// The abstract state of a scramble.
pub struct ScrambleModel {
    /// Shown before the cells in every frame.
    pub prefix: Seq<char>,
    /// What the cells show now.
    pub cells: Seq<char>,
    /// What the cells show at the end.
    pub goal: Seq<char>,
    /// The number of cells the animation walks over.
    pub total: nat,
    /// `false` while glyphs are being scattered, `true` while the goal is revealed.
    pub revealing: bool,
    /// The cell the next tick works on.
    pub pos: nat,
    /// The text shown once the animation has settled.
    pub settled_text: Seq<char>,
}

impl ScrambleModel {
    /// What a frame shows.
    pub open spec fn frame(self) -> Seq<char> {
        self.prefix + self.cells
    }

    /// The reveal has gone past the last cell.
    pub open spec fn finished(self) -> bool {
        self.revealing && self.pos >= self.total
    }

    /// A tick can run without indexing past the cells or the goal.
    pub open spec fn can_tick(self) -> bool {
        &&& self.pos < self.total
        &&& !self.revealing ==> self.total <= self.cells.len()
        &&& self.revealing ==> self.pos < self.cells.len() && self.pos < self.goal.len()
    }

    /// How many random rolls the next tick uses: one per cell from `pos` to
    /// the end while scattering, none while revealing.
    pub open spec fn rolls_needed(self) -> nat {
        if self.revealing {
            0
        } else {
            (self.total - self.pos) as nat
        }
    }

    /// The state after one tick that uses the random rolls `rolls`.
    ///
    /// Scattering: every cell from `pos` to the end gets the glyph of its roll
    /// and `pos` moves on; after the last cell the reveal starts at cell 0.
    /// Revealing: the cell at `pos` takes its goal character and `pos` moves on.
    pub open spec fn advanced(self, rolls: Seq<usize>) -> ScrambleModel {
        if !self.revealing {
            let cells = Seq::new(
                self.cells.len(),
                |i: int|
                    if self.pos <= i < self.total {
                        glyph_for(rolls[i - self.pos] as int)
                    } else {
                        self.cells[i]
                    },
            );
            let next = self.pos + 1;
            ScrambleModel {
                prefix: self.prefix,
                cells,
                goal: self.goal,
                total: self.total,
                revealing: next >= self.total,
                pos: if next >= self.total {
                    0
                } else {
                    next
                },
                settled_text: self.settled_text,
            }
        } else {
            ScrambleModel {
                prefix: self.prefix,
                cells: self.cells.update(self.pos as int, self.goal[self.pos as int]),
                goal: self.goal,
                total: self.total,
                revealing: true,
                pos: self.pos + 1,
                settled_text: self.settled_text,
            }
        }
    }

    /// A scramble that has not ticked yet, whose cells and goal both span
    /// all of its (at least one) cells.
    pub open spec fn fresh(self) -> bool {
        &&& !self.revealing
        &&& self.pos == 0
        &&& self.total > 0
        &&& self.cells.len() == self.total
        &&& self.goal.len() == self.total
    }
}

/// The state after `n` ticks, the `k`-th of them using the rolls `rolls(k)`.
pub open spec fn run(m: ScrambleModel, rolls: spec_fn(nat) -> Seq<usize>, n: nat) -> ScrambleModel
    decreases n,
{
    if n == 0 {
        m
    } else {
        run(m, rolls, (n - 1) as nat).advanced(rolls((n - 1) as nat))
    }
}

/// The scramble from the text `from` to the text `target`: both are padded
/// with spaces to the byte length of the longer one, which is the number of
/// cells; the cells start as padded `from`, the goal is padded `target`, and
/// the settled text is `target` itself.
pub open spec fn between_model(from: Seq<char>, target: Seq<char>) -> ScrambleModel {
    let width: nat = if byte_width(from) < byte_width(target) {
        byte_width(target)
    } else {
        byte_width(from)
    };
    ScrambleModel {
        prefix: Seq::empty(),
        cells: pad_to_width(from, width),
        goal: pad_to_width(target, width),
        total: width,
        revealing: false,
        pos: 0,
        settled_text: target,
    }
}

/// The scramble that reveals `suffix` after a fixed `prefix`: one cell per
/// character of `suffix`, all blank at the start, and the settled text is
/// `prefix` followed by `suffix`.
pub open spec fn reveal_model(prefix: Seq<char>, suffix: Seq<char>) -> ScrambleModel {
    ScrambleModel {
        prefix,
        cells: spaces(suffix.len()),
        goal: suffix,
        total: suffix.len(),
        revealing: false,
        pos: 0,
        settled_text: prefix + suffix,
    }
}

/// What one tick hands back to be shown.
pub enum ScrambleFrame {
    /// Show this text; more ticks follow.
    Show(Vec<char>),
    /// Show `frame`, then `text`: the animation has settled and wants no more ticks.
    Settle { frame: Vec<char>, text: Vec<char> },
}

/// A running scramble animation.
pub struct Scramble {
    prefix: Vec<char>,
    cells: Vec<char>,
    goal: Vec<char>,
    total: usize,
    revealing: bool,
    pos: usize,
    settled_text: Vec<char>,
}

impl View for Scramble {
    type V = ScrambleModel;

    closed spec fn view(&self) -> ScrambleModel {
        ScrambleModel {
            prefix: self.prefix@,
            cells: self.cells@,
            goal: self.goal@,
            total: self.total as nat,
            revealing: self.revealing,
            pos: self.pos as nat,
            settled_text: self.settled_text@,
        }
    }
}

impl Scramble {
    #[verifier::type_invariant]
    spec fn position_in_range(self) -> bool {
        self.pos <= self.total
    }

    /// The scramble that turns the text `from` into `target`.
    pub fn between(from: &Vec<char>, target: &Vec<char>) -> (s: Scramble)
        requires
            byte_width(from@) <= usize::MAX,
            byte_width(target@) <= usize::MAX,
        ensures
            s@ == between_model(from@, target@),
            all_ascii(from@) && all_ascii(target@) && (from@.len() > 0 || target@.len() > 0)
                ==> s@.fresh(),
    {
        let from_width = crate::text::utf8_len(from);
        let target_width = crate::text::utf8_len(target);
        let width = if from_width < target_width {
            target_width
        } else {
            from_width
        };
        let cells = pad_chars(from, width);
        let goal = pad_chars(target, width);
        let mut settled_text: Vec<char> = Vec::new();
        let mut i: usize = 0;
        while i < target.len()
            invariant
                i <= target.len(),
                settled_text@ == target@.take(i as int),
            decreases target.len() - i,
        {
            settled_text.push(target[i]);
            i = i + 1;
        }
        assert(settled_text@ =~= target@);
        let s = Scramble {
            prefix: Vec::new(),
            cells,
            goal,
            total: width,
            revealing: false,
            pos: 0,
            settled_text,
        };
        proof {
            lemma_between_fresh(from@, target@);
        }
        assert(s@.prefix =~= Seq::<char>::empty());
        s
    }

    /// The scramble that reveals `suffix` after the fixed text `prefix`.
    pub fn revealing_suffix(prefix: &Vec<char>, suffix: &Vec<char>) -> (s: Scramble)
        ensures
            s@ == reveal_model(prefix@, suffix@),
    {
        let n = suffix.len();
        let mut cells: Vec<char> = Vec::new();
        let mut k: usize = 0;
        while k < n
            invariant
                k <= n,
                cells@ == spaces(k as nat),
            decreases n - k,
        {
            cells.push(' ');
            k = k + 1;
            assert(cells@ =~= spaces(k as nat));
        }
        let goal = joined(&Vec::new(), suffix);
        let pre = joined(prefix, &Vec::new());
        let settled_text = joined(prefix, suffix);
        assert(goal@ =~= suffix@);
        assert(pre@ =~= prefix@);
        Scramble { prefix: pre, cells, goal, total: n, revealing: false, pos: 0, settled_text }
    }

    /// Whether the next tick can run.
    pub fn can_tick(&self) -> (b: bool)
        ensures
            b == self@.can_tick(),
    {
        self.pos < self.total && (if !self.revealing {
            self.total <= self.cells.len()
        } else {
            self.pos < self.cells.len() && self.pos < self.goal.len()
        })
    }

    /// How many random rolls the next tick uses.
    pub fn rolls_needed(&self) -> (n: usize)
        ensures
            n == self@.rolls_needed(),
    {
        proof {
            use_type_invariant(self);
        }
        if self.revealing {
            0
        } else {
            self.total - self.pos
        }
    }

    /// Whether the animation has settled.
    pub fn is_finished(&self) -> (b: bool)
        ensures
            b == self@.finished(),
    {
        self.revealing && self.pos >= self.total
    }

    /// The text shown right now.
    pub fn frame(&self) -> (f: Vec<char>)
        ensures
            f@ == self@.frame(),
            f@ == self@.prefix + self@.cells,
    {
        joined(&self.prefix, &self.cells)
    }

    /// Runs one tick with the random rolls `rolls` and hands back what to show.
    pub fn tick(&mut self, rolls: &Vec<usize>) -> (out: ScrambleFrame)
        requires
            old(self)@.can_tick(),
            rolls@.len() == old(self)@.rolls_needed(),
        ensures
            final(self)@ == old(self)@.advanced(rolls@),
            match out {
                ScrambleFrame::Show(f) => {
                    &&& f@ == final(self)@.frame()
                    &&& f@ == final(self)@.prefix + final(self)@.cells
                    &&& !final(self)@.finished()
                },
                ScrambleFrame::Settle { frame, text } => {
                    &&& frame@ == final(self)@.frame()
                    &&& frame@ == final(self)@.prefix + final(self)@.cells
                    &&& text@ == final(self)@.settled_text
                    &&& final(self)@.finished()
                },
            },
    {
        let ghost start = self@;
        proof {
            use_type_invariant(&*self);
        }
        let mut cells: Vec<char> = Vec::new();
        std::mem::swap(&mut cells, &mut self.cells);
        let p = self.pos;
        if !self.revealing {
            let total = self.total;
            let mut j = p;
            while j < total
                invariant
                    p <= j <= total,
                    total <= cells.len(),
                    rolls@.len() == total - p,
                    cells@.len() == start.cells.len(),
                    forall|i: int|
                        0 <= i < cells@.len() ==> #[trigger] cells@[i] == if p <= i < j {
                            glyph_for(rolls@[i - p] as int)
                        } else {
                            start.cells[i]
                        },
                decreases total - j,
            {
                let g = glyph_at(rolls[j - p]);
                cells.set(j, g);
                j = j + 1;
            }
            self.cells = cells;
            let next = p + 1;
            if next >= self.total {
                self.revealing = true;
                self.pos = 0;
            } else {
                self.pos = next;
            }
            assert(self@.cells =~= start.advanced(rolls@).cells);
        } else {
            let c = self.goal[p];
            cells.set(p, c);
            self.cells = cells;
            self.pos = p + 1;
            assert(self@.cells =~= start.advanced(rolls@).cells);
        }
        let frame = joined(&self.prefix, &self.cells);
        if self.revealing && self.pos >= self.total {
            let text = joined(&Vec::new(), &self.settled_text);
            assert(text@ =~= self.settled_text@);
            ScrambleFrame::Settle { frame, text }
        } else {
            ScrambleFrame::Show(frame)
        }
    }
}

/// For ASCII text the padded cells and goal span exactly the byte width, so a
/// scramble between two ASCII texts, not both empty, is fresh.
pub proof fn lemma_between_fresh(from: Seq<char>, target: Seq<char>)
    ensures
        all_ascii(from) && all_ascii(target) && (from.len() > 0 || target.len() > 0)
            ==> between_model(from, target).fresh(),
{
    lemma_byte_width_bounds(from);
    lemma_byte_width_bounds(target);
}


/// The shape of a fresh scramble after `k` ticks: for the first `total` ticks it
/// scatters, with `pos == k`; then it reveals, with `pos == k - total` and the
/// first `k - total` cells already equal to the goal. Nothing but the cells and
/// the position changes, and every tick up to the last one can run.
pub proof fn lemma_run_shape(m: ScrambleModel, rolls: spec_fn(nat) -> Seq<usize>, k: nat)
    requires
        m.fresh(),
        k <= 2 * m.total,
    ensures
        run(m, rolls, k).prefix == m.prefix,
        run(m, rolls, k).goal == m.goal,
        run(m, rolls, k).total == m.total,
        run(m, rolls, k).settled_text == m.settled_text,
        run(m, rolls, k).cells.len() == m.total,
        k < m.total ==> !run(m, rolls, k).revealing && run(m, rolls, k).pos == k,
        k >= m.total ==> run(m, rolls, k).revealing && run(m, rolls, k).pos == k - m.total,
        k >= m.total ==> forall|i: int|
            0 <= i < k - m.total ==> #[trigger] run(m, rolls, k).cells[i] == m.goal[i],
        k < 2 * m.total ==> run(m, rolls, k).can_tick(),
        k >= 1 ==> forall|i: int|
            (if k >= m.total { k - m.total } else { 0 }) <= i < m.total ==> is_glyph(
                #[trigger] run(m, rolls, k).cells[i],
            ),
    decreases k,
{
    if k > 0 {
        lemma_run_shape(m, rolls, (k - 1) as nat);
        let prev = run(m, rolls, (k - 1) as nat);
        let next = run(m, rolls, k);
        assert(next == prev.advanced(rolls((k - 1) as nat)));
        let lo: int = if k >= m.total { k - m.total } else { 0 };
        assert forall|i: int| lo <= i < m.total implies is_glyph(#[trigger] next.cells[i]) by {
            if !prev.revealing {
                if prev.pos <= i {
                    crate::glyphs::lemma_glyph_for_is_glyph(rolls((k - 1) as nat)[i - prev.pos] as int);
                }
            } else {
                assert(next.cells[i] == prev.cells[i]);
            }
        }
        if k >= m.total && k - 1 >= m.total {
            assert forall|i: int| 0 <= i < k - m.total implies #[trigger] next.cells[i] == m.goal[i] by {
                if i < k - 1 - m.total {
                    assert(next.cells[i] == prev.cells[i]);
                }
            }
        }
    }
}

/// A fresh scramble keeps running for exactly twice as many ticks as it has
/// cells, whatever glyphs the random rolls pick; it then shows its goal after
/// its prefix, and is finished.
pub proof fn lemma_scramble_settles(m: ScrambleModel, rolls: spec_fn(nat) -> Seq<usize>)
    requires
        m.fresh(),
    ensures
        forall|k: nat| k < 2 * m.total ==> {
            &&& #[trigger] run(m, rolls, k).can_tick()
            &&& !run(m, rolls, k).finished()
        },
        run(m, rolls, 2 * m.total).finished(),
        run(m, rolls, 2 * m.total).cells == m.goal,
        run(m, rolls, 2 * m.total).frame() == m.prefix + m.goal,
{
    assert forall|k: nat| k < 2 * m.total implies {
        &&& #[trigger] run(m, rolls, k).can_tick()
        &&& !run(m, rolls, k).finished()
    } by {
        lemma_run_shape(m, rolls, k);
    }
    lemma_run_shape(m, rolls, 2 * m.total);
    assert(run(m, rolls, 2 * m.total).cells =~= m.goal);
}

/// While a scramble scatters, every cell from its position to the end shows a
/// glyph after the tick, and the cells before its position are left alone.
pub proof fn lemma_scatter_shows_glyphs(m: ScrambleModel, rolls: Seq<usize>)
    requires
        m.can_tick(),
        !m.revealing,
    ensures
        forall|i: int| m.pos <= i < m.total ==> is_glyph(#[trigger] m.advanced(rolls).cells[i]),
        forall|i: int| 0 <= i < m.pos ==> #[trigger] m.advanced(rolls).cells[i] == m.cells[i],
{
    assert forall|i: int| m.pos <= i < m.total implies is_glyph(#[trigger] m.advanced(rolls).cells[i]) by {
        crate::glyphs::lemma_glyph_for_is_glyph(rolls[i - m.pos] as int);
    }
}

/// A reveal tick puts the goal character into the current cell and leaves
/// every other cell alone.
pub proof fn lemma_reveal_one_cell(m: ScrambleModel, rolls: Seq<usize>)
    requires
        m.can_tick(),
        m.revealing,
    ensures
        m.advanced(rolls).cells[m.pos as int] == m.goal[m.pos as int],
        forall|i: int|
            0 <= i < m.cells.len() && i != m.pos ==> #[trigger] m.advanced(rolls).cells[i] == m.cells[i],
        m.advanced(rolls).pos == m.pos + 1,
{
}

/// The scramble between two texts settles on the target text, whatever glyphs
/// were rolled, after twice as many ticks as the byte length of the longer
/// text, when both texts are ASCII and not both empty.
pub proof fn lemma_between_settles_on_target(
    from: Seq<char>,
    target: Seq<char>,
    rolls: spec_fn(nat) -> Seq<usize>,
)
    requires
        all_ascii(from),
        all_ascii(target),
        from.len() > 0 || target.len() > 0,
    ensures
        ({
            let m = between_model(from, target);
            let end = run(m, rolls, 2 * m.total);
            &&& end.finished()
            &&& end.frame() == pad_to_width(target, m.total)
            &&& end.settled_text == target
        }),
{
    lemma_between_fresh(from, target);
    let m = between_model(from, target);
    lemma_scramble_settles(m, rolls);
    lemma_run_shape(m, rolls, 2 * m.total);
    assert(m.prefix + m.goal =~= m.goal);
    assert(run(m, rolls, 2 * m.total).frame() =~= pad_to_width(target, m.total));
}

/// A reveal of a non-empty suffix runs for twice as many ticks as the
/// suffix has characters and then shows the prefix followed by the suffix,
/// which is also its settled text.
pub proof fn lemma_reveal_settles(
    prefix: Seq<char>,
    suffix: Seq<char>,
    rolls: spec_fn(nat) -> Seq<usize>,
)
    requires
        suffix.len() > 0,
    ensures
        ({
            let m = reveal_model(prefix, suffix);
            let end = run(m, rolls, 2 * m.total);
            &&& end.finished()
            &&& end.frame() == prefix + suffix
            &&& end.settled_text == prefix + suffix
        }),
{
    let m = reveal_model(prefix, suffix);
    assert(m.fresh());
    lemma_scramble_settles(m, rolls);
    lemma_run_shape(m, rolls, 2 * m.total);
}

/// A scramble whose starting text holds a character of more than one byte
/// has fewer cells than its width, so its first tick cannot run.
pub proof fn lemma_multibyte_source_cannot_tick(from: Seq<char>, target: Seq<char>)
    requires
        !all_ascii(from),
    ensures
        between_model(from, target).cells.len() < between_model(from, target).total,
        !between_model(from, target).can_tick(),
{
    lemma_byte_width_bounds(from);
}

/// Both texts of a scramble are padded to one byte width, that of the longer
/// text, which is the number of cells it walks over.
pub proof fn lemma_between_widths(from: Seq<char>, target: Seq<char>)
    ensures
        byte_width(between_model(from, target).cells) == between_model(from, target).total,
        byte_width(between_model(from, target).goal) == between_model(from, target).total,
        between_model(from, target).total >= byte_width(from),
        between_model(from, target).total >= byte_width(target),
{
    let m = between_model(from, target);
    crate::text::lemma_pad_width(from, m.total);
    crate::text::lemma_pad_width(target, m.total);
}

/// Every frame is the prefix followed by all the cells: it is as long as both,
/// starts with the prefix, and shows cell `i` right after it at position
/// `prefix.len() + i`.
pub proof fn lemma_frame_shows_prefix_then_cells(m: ScrambleModel)
    ensures
        m.frame().len() == m.prefix.len() + m.cells.len(),
        m.frame().take(m.prefix.len() as int) == m.prefix,
        forall|i: int|
            0 <= i < m.cells.len() ==> #[trigger] m.frame()[m.prefix.len() + i] == m.cells[i],
{
    assert(m.frame().take(m.prefix.len() as int) =~= m.prefix);
}

/// During the reveal of a fresh scramble, after the scatter ticks and `k`
/// reveal ticks the frame shows the prefix, the first `k` goal characters, and
/// a glyph in every cell still to be revealed.
pub proof fn lemma_reveal_frames(m: ScrambleModel, rolls: spec_fn(nat) -> Seq<usize>, k: nat)
    requires
        m.fresh(),
        k <= m.total,
    ensures
        ({
            let now = run(m, rolls, m.total + k);
            &&& now.frame().len() == m.prefix.len() + m.total
            &&& now.frame().subrange(0, m.prefix.len() as int) == m.prefix
            &&& now.frame().subrange(m.prefix.len() as int, (m.prefix.len() + k) as int) == m.goal.take(
                k as int,
            )
            &&& forall|i: int|
                m.prefix.len() + k <= i < m.prefix.len() + m.total ==> is_glyph(
                    #[trigger] now.frame()[i],
                )
        }),
{
    lemma_run_shape(m, rolls, m.total + k);
    let now = run(m, rolls, m.total + k);
    lemma_frame_shows_prefix_then_cells(now);
    let p = m.prefix.len() as int;
    assert(now.frame().subrange(0, p) =~= m.prefix);
    assert forall|j: int| 0 <= j < k implies #[trigger] now.frame().subrange(p, p + k)[j]
        == m.goal.take(k as int)[j] by {
        assert(now.frame()[p + j] == now.cells[j]);
    }
    assert(now.frame().subrange(p, p + k) =~= m.goal.take(k as int));
    assert forall|i: int| p + k <= i < p + m.total implies is_glyph(#[trigger] now.frame()[i]) by {
        assert(now.frame()[p + (i - p)] == now.cells[i - p]);
    }
}

} // verus!
