//! The project and contact links: hovering one scrambles its name back into
//! itself and underlines the link when done; leaving it stops the scramble
//! and restores the name at once. At most one scramble runs per link.

use vstd::prelude::*;
use std::collections::HashMap;

use crate::scramble::{between_model, Scramble};
use crate::text::byte_width;

verus! {

broadcast use vstd::std_specs::hash::group_hash_axioms;

/// A running name scramble of one link.
pub struct LinkAnimation {
    /// The interval timer that drives it.
    pub timer: i32,
    /// The name the link showed before it started.
    pub saved_name: Vec<char>,
}

/// The running name scrambles, by link.
pub struct LinkBook {
    running: HashMap<usize, LinkAnimation>,
}

impl View for LinkBook {
    type V = Map<usize, LinkAnimation>;

    closed spec fn view(&self) -> Map<usize, LinkAnimation> {
        self.running@
    }
}

/// What the page does when the pointer leaves a link.
pub enum LinkLeave {
    /// No scramble was running for the link.
    Idle,
    /// Stop the interval timer `timer` and show `saved_name` again.
    Restore { timer: i32, saved_name: Vec<char> },
}

impl LinkBook {
    /// No scramble runs.
    pub fn new() -> (b: LinkBook)
        ensures
            b@ == Map::<usize, LinkAnimation>::empty(),
    {
        LinkBook { running: HashMap::new() }
    }

    /// Whether a pointer entering the link `key` starts a scramble: only when
    /// none runs for it yet.
    pub fn should_animate(&self, key: usize) -> (b: bool)
        ensures
            b == !self@.contains_key(key),
    {
        !self.running.contains_key(&key)
    }

    /// A scramble of the link `key`, which had the name `saved_name`, now runs
    /// on the interval timer `timer`.
    pub fn started(&mut self, key: usize, timer: i32, saved_name: Vec<char>)
        ensures
            final(self)@ == old(self)@.insert(key, LinkAnimation { timer, saved_name }),
    {
        self.running.insert(key, LinkAnimation { timer, saved_name });
    }

    /// The scramble of the link `key` has settled: the link no longer has one.
    pub fn finished(&mut self, key: usize)
        ensures
            final(self)@ == old(self)@.remove(key),
    {
        self.running.remove(&key);
    }

    /// The pointer left the link `key`: its scramble, if any, is dropped, and
    /// the page stops its timer and restores its name.
    pub fn pointer_leave(&mut self, key: usize) -> (out: LinkLeave)
        ensures
            final(self)@ == old(self)@.remove(key),
            match out {
                LinkLeave::Idle => !old(self)@.contains_key(key),
                LinkLeave::Restore { timer, saved_name } => {
                    &&& old(self)@.contains_key(key)
                    &&& timer == old(self)@[key].timer
                    &&& saved_name@ == old(self)@[key].saved_name@
                },
            },
    {
        match self.running.remove(&key) {
            Some(anim) => LinkLeave::Restore { timer: anim.timer, saved_name: anim.saved_name },
            None => LinkLeave::Idle,
        }
    }
}

/// The scramble of a link's name back into itself.
pub fn name_scramble(name: &Vec<char>) -> (s: Scramble)
    requires
        byte_width(name@) <= usize::MAX,
    ensures
        s@ == between_model(name@, name@),
{
    Scramble::between(name, name)
}

/// Leaving a link right after its scramble started hands back exactly the
/// timer and name that were recorded, and the book is as it was before.
pub proof fn lemma_leave_undoes_start(
    book: Map<usize, LinkAnimation>,
    key: usize,
    anim: LinkAnimation,
)
    requires
        !book.contains_key(key),
    ensures
        book.insert(key, anim).contains_key(key),
        book.insert(key, anim)[key] == anim,
        book.insert(key, anim).remove(key) == book,
{
    assert(book.insert(key, anim).remove(key) =~= book);
}

/// While a scramble runs for a link, entering it again starts none; once the
/// scramble has settled or the pointer has left, entering starts one again.
pub proof fn lemma_one_scramble_per_link(
    book: Map<usize, LinkAnimation>,
    key: usize,
    anim: LinkAnimation,
)
    ensures
        book.insert(key, anim).contains_key(key),
        !book.insert(key, anim).remove(key).contains_key(key),
{
}

/// Events on one link never touch the scramble of another.
pub proof fn lemma_links_independent(
    book: Map<usize, LinkAnimation>,
    key: usize,
    other: usize,
    anim: LinkAnimation,
)
    requires
        key != other,
    ensures
        book.insert(key, anim).contains_key(other) == book.contains_key(other),
        book.remove(key).contains_key(other) == book.contains_key(other),
        book.contains_key(other) ==> book.insert(key, anim)[other] == book[other]
            && book.remove(key)[other] == book[other],
{
}

} // verus!
