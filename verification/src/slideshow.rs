//! The slideshow controller: a list of image handles, the index of the one
//! on screen, and the timestamp of the last swap. A periodic tick advances
//! the index once the swap interval has elapsed; a one-shot load event
//! replaces the whole list. All times are milliseconds on one monotone clock.

use vstd::prelude::*;

verus! {

use vstd::arithmetic::div_mod::{
    lemma_add_mod_noop_right,
    lemma_div_is_ordered,
    lemma_div_plus_one,
    lemma_div_pos_is_pos,
    lemma_mod_add_multiples_vanish,
    lemma_mod_division_less_than_divisor,
    lemma_mod_self_0,
    lemma_small_mod,
};

/// How long one image stays on screen, in milliseconds.
pub const SWAP_INTERVAL_MS: u64 = 5000;

/// What the display surface should show, as plain values: the handle itself
/// is fetched separately with [`Slideshow::current_image`].
#[derive(Debug, Clone, Copy, PartialEq, Eq, Structural)]
pub enum CurrentView {
    /// Nothing is loaded yet: show the loading placeholder.
    Placeholder,
    /// Show the image at `index`, with `countdown_secs` whole seconds left
    /// until the next swap.
    Image { index: usize, countdown_secs: u64 },
}

/// The index shown after one swap: one step forward, wrapping to the front
/// after the last element.
pub open spec fn next_index(i: int, len: int) -> int {
    if i + 1 >= len {
        0
    } else {
        i + 1
    }
}

/// The index reached from `i` after `k` swaps through a sequence of
/// length `len`.
pub open spec fn advance(i: int, len: int, k: nat) -> int
    decreases k,
{
    if k == 0 {
        i
    } else {
        next_index(advance(i, len, (k - 1) as nat), len)
    }
}

/// Whole seconds left until the next swap: the ceiling of the remaining
/// time, and zero once the interval has fully elapsed.
pub open spec fn secs_until_swap(interval_ms: int, elapsed_ms: int) -> int {
    if elapsed_ms >= interval_ms {
        0
    } else {
        (interval_ms - elapsed_ms + 999) / 1000
    }
}

proof fn lemma_advance_is_mod(i: int, len: int, k: nat)
    requires
        0 <= i < len,
    ensures
        advance(i, len, k) == (i + k) % len,
    decreases k,
{
    if k == 0 {
        lemma_small_mod(i as nat, len as nat);
    } else {
        lemma_advance_is_mod(i, len, (k - 1) as nat);
        let prev = advance(i, len, (k - 1) as nat);
        lemma_mod_division_less_than_divisor(i + k - 1, len);
        lemma_add_mod_noop_right(1, i + k - 1, len);
        if prev + 1 >= len {
            lemma_mod_self_0(len);
        } else {
            lemma_small_mod((prev + 1) as nat, len as nat);
        }
    }
}

/// Law: with at least two images, a full round of swaps — as many as there
/// are images — brings the current index back to where it started.
pub proof fn lemma_full_cycle(i: int, len: int)
    requires
        2 <= len,
        0 <= i < len,
    ensures
        advance(i, len, len as nat) == i,
{
    lemma_advance_is_mod(i, len, len as nat);
    lemma_mod_add_multiples_vanish(i, len);
    lemma_small_mod(i as nat, len as nat);
}

/// Law: the countdown is never negative and never increases as elapsed time
/// grows; once at least one whole second more has elapsed and the interval
/// has still not run out, it strictly falls.
pub proof fn lemma_countdown_monotone(interval_ms: int, e1: int, e2: int)
    requires
        0 < interval_ms,
        0 <= e1 <= e2,
    ensures
        0 <= secs_until_swap(interval_ms, e2),
        secs_until_swap(interval_ms, e2) <= secs_until_swap(interval_ms, e1),
        e1 + 1000 <= e2 && e2 < interval_ms ==> secs_until_swap(interval_ms, e2)
            < secs_until_swap(interval_ms, e1),
{
    if e2 >= interval_ms {
        if e1 < interval_ms {
            lemma_div_pos_is_pos(interval_ms - e1 + 999, 1000);
        }
    } else {
        let n1 = interval_ms - e1 + 999;
        let n2 = interval_ms - e2 + 999;
        lemma_div_pos_is_pos(n2, 1000);
        lemma_div_is_ordered(n2, n1, 1000);
        if e1 + 1000 <= e2 {
            lemma_div_plus_one(n2, 1000);
            lemma_div_is_ordered(n2 + 1000, n1, 1000);
        }
    }
}

/// The slideshow state: the images in display order, the index of the one
/// on screen, and when it was put there. `H` is the display surface's image
/// handle type; the controller never looks inside a handle.
pub struct Slideshow<H> {
    images: Vec<H>,
    current: usize,
    last_swap_ms: u64,
    interval_ms: u64,
}

impl<H> Slideshow<H> {
    /// The images in display order.
    pub closed spec fn images(self) -> Seq<H> {
        self.images@
    }

    /// The index of the image on screen.
    pub closed spec fn current(self) -> int {
        self.current as int
    }

    /// When the image on screen was put there, in clock milliseconds.
    pub closed spec fn last_swap_ms(self) -> int {
        self.last_swap_ms as int
    }

    /// How long one image stays on screen, in milliseconds.
    pub closed spec fn interval_ms(self) -> int {
        self.interval_ms as int
    }

    /// The state invariant: the interval is positive, and the current index
    /// points into the sequence whenever the sequence is non-empty (and sits
    /// at the front when it is empty).
    pub open spec fn wf(self) -> bool {
        &&& self.interval_ms() > 0
        &&& self.images().len() == 0 ==> self.current() == 0
        &&& self.images().len() > 0 ==> 0 <= self.current() < self.images().len()
    }

    /// A fresh, empty slideshow: nothing loaded, the countdown starting now.
    pub fn new(interval_ms: u64, now_ms: u64) -> (s: Self)
        requires
            interval_ms > 0,
        ensures
            s.wf(),
            s.images().len() == 0,
            s.current() == 0,
            s.last_swap_ms() == now_ms,
            s.interval_ms() == interval_ms,
    {
        Slideshow { images: Vec::new(), current: 0, last_swap_ms: now_ms, interval_ms }
    }

    /// Replace the whole image list with a freshly loaded one. The current
    /// index is kept when it still points into the new list and clamped to
    /// the front otherwise; the swap deadline is untouched.
    pub fn on_images_loaded(&mut self, images: Vec<H>)
        requires
            old(self).wf(),
        ensures
            final(self).wf(),
            final(self).images() == images@,
            final(self).current() == if old(self).current() < images@.len() {
                old(self).current()
            } else {
                0
            },
            final(self).last_swap_ms() == old(self).last_swap_ms(),
            final(self).interval_ms() == old(self).interval_ms(),
    {
        if self.current >= images.len() {
            self.current = 0;
        }
        self.images = images;
    }

    /// A clock tick: when the swap interval has elapsed and there is more
    /// than one image, advance to the next image and restart the countdown;
    /// otherwise do nothing. With zero or one image the index never moves,
    /// whatever the elapsed time.
    pub fn on_tick(&mut self, now_ms: u64)
        requires
            old(self).wf(),
            now_ms >= old(self).last_swap_ms(),
        ensures
            final(self).wf(),
            final(self).images() == old(self).images(),
            final(self).interval_ms() == old(self).interval_ms(),
            now_ms - old(self).last_swap_ms() >= old(self).interval_ms() && old(
                self,
            ).images().len() > 1 ==> {
                &&& final(self).current() == next_index(
                    old(self).current(),
                    old(self).images().len() as int,
                )
                &&& final(self).last_swap_ms() == now_ms
            },
            now_ms - old(self).last_swap_ms() < old(self).interval_ms() || old(
                self,
            ).images().len() <= 1 ==> {
                &&& final(self).current() == old(self).current()
                &&& final(self).last_swap_ms() == old(self).last_swap_ms()
            },
            old(self).images().len() <= 1 ==> final(self).current() == old(self).current(),
    {
        let elapsed = now_ms - self.last_swap_ms;
        if elapsed >= self.interval_ms && self.images.len() > 1 {
            self.last_swap_ms = now_ms;
            if self.current >= self.images.len() - 1 {
                self.current = 0;
            } else {
                self.current = self.current + 1;
            }
        }
    }

    /// What the display should show right now: the loading placeholder while
    /// the list is empty, else the current index and the whole seconds left
    /// until the next swap.
    pub fn current_view(&self, now_ms: u64) -> (v: CurrentView)
        requires
            self.wf(),
            now_ms >= self.last_swap_ms(),
        ensures
            self.images().len() == 0 ==> v == CurrentView::Placeholder,
            self.images().len() > 0 ==> (v matches CurrentView::Image { index, countdown_secs }
                && index == self.current()
                && countdown_secs == secs_until_swap(
                    self.interval_ms(),
                    now_ms - self.last_swap_ms(),
                )),
    {
        if self.images.len() == 0 {
            CurrentView::Placeholder
        } else {
            let elapsed = now_ms - self.last_swap_ms;
            let countdown_secs = if elapsed >= self.interval_ms {
                0
            } else {
                let remaining = self.interval_ms - elapsed;
                proof {
                    vstd::arithmetic::div_mod::lemma_div_plus_one(remaining - 1, 1000);
                    vstd::arithmetic::div_mod::lemma_div_nonincreasing(remaining - 1, 1000);
                }
                (remaining - 1) / 1000 + 1
            };
            CurrentView::Image { index: self.current, countdown_secs }
        }
    }

    /// The handle the display should render, or nothing while the list is
    /// empty.
    pub fn current_image(&self) -> (r: Option<&H>)
        requires
            self.wf(),
        ensures
            self.images().len() == 0 ==> r is None,
            self.images().len() > 0 ==> (r matches Some(h) && *h == self.images()[self.current()]),
    {
        if self.images.len() == 0 {
            None
        } else {
            Some(&self.images[self.current])
        }
    }

    /// When the image on screen was put there, in clock milliseconds. Callers
    /// feed `on_tick` and `current_view` times from the same monotone clock,
    /// never earlier than this.
    pub fn last_swap_time_ms(&self) -> (t: u64)
        ensures
            t == self.last_swap_ms(),
    {
        self.last_swap_ms
    }
}

} // verus!
