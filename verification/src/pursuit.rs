//! The policy by which a sprite runs away from a chaser.
//!
//! While the chaser is far the runner wanders, its direction and speed
//! drawn from a seeded stream. Once the chaser is within the panic
//! distance the runner flees straight away from it, the faster the closer
//! the chaser is. Either way a little jitter is added, and the runner
//! leaves the display on one side to come back in on the other.

use crate::bitmap::lemma_product_bounded;
use crate::geometry::{Point, Size, TFT_DISPLAY_HEIGHT, TFT_DISPLAY_WIDTH};
use crate::sprite::Sprite;
use rand_chacha::ChaCha8Rng;
use rand_core::{RngCore, SeedableRng};
use vstd::prelude::*;

verus! {

/// Word number `word_pos` of the stream that a ChaCha generator with eight
/// rounds gives when it is seeded with `seed`. The generator is
/// reproducible: the word depends on nothing but the seed and the place.
pub uninterp spec fn chacha8_word(seed: u64, word_pos: u128) -> u32;

/// The number of words after which the stream starts over: two to the
/// power of 68.
pub const STREAM_WORDS: u128 = 0x10_0000_0000_0000_0000;

/// A place in the stream of a seeded generator.
#[derive(Clone, Copy, Debug, PartialEq, Eq, Structural)]
pub struct ChaseRng {
    pub seed: u64,
    /// The number of the word that comes next.
    pub word_pos: u128,
}

/// The words that one step of the policy draws.
#[derive(Clone, Copy, Debug, PartialEq, Eq, Structural)]
pub struct Draws {
    /// Picks the direction along x while the runner wanders.
    pub heading_x: u32,
    /// Picks the direction along y while the runner wanders.
    pub heading_y: u32,
    /// Picks the jitter along x.
    pub jitter_x: u32,
    /// Picks the jitter along y.
    pub jitter_y: u32,
    /// Picks the speed while the runner wanders.
    pub speed: u32,
}

/// Seeds a ChaCha generator with `ChaCha8Rng::seed_from_u64`, moves it to
/// a place with `set_word_pos` and reads one word with `next_u32`.
/// Trusted: the word read is `chacha8_word` of the seed and the place, so
/// equal seeds and places give equal words. Nothing is claimed of the
/// word's value.
#[verifier::external_body]
fn stream_word(seed: u64, word_pos: u128) -> (word: u32)
    ensures
        word == chacha8_word(seed, word_pos),
{
    let mut rng = ChaCha8Rng::seed_from_u64(seed);
    rng.set_word_pos(word_pos);
    rng.next_u32()
}

impl ChaseRng {
    /// The place lies within one round of the stream.
    pub open spec fn wf(&self) -> bool {
        self.word_pos < STREAM_WORDS
    }

    /// The place `count` words further on, starting over at the end of
    /// the stream.
    pub open spec fn advanced(&self, count: nat) -> ChaseRng {
        ChaseRng {
            seed: self.seed,
            word_pos: ((self.word_pos + count) % STREAM_WORDS as int) as u128,
        }
    }

    /// The word that is read after `skip` others.
    pub open spec fn word(&self, skip: nat) -> u32 {
        chacha8_word(self.seed, self.advanced(skip).word_pos)
    }

    /// The start of the stream for `seed`.
    pub fn seed_from_u64(seed: u64) -> (rng: ChaseRng)
        ensures
            rng.seed == seed,
            rng.word_pos == 0,
            rng.wf(),
    {
        ChaseRng { seed, word_pos: 0 }
    }

    /// Reads the next word and moves on by one.
    pub fn next_u32(&mut self) -> (word: u32)
        requires
            old(self).wf(),
        ensures
            word == old(self).word(0),
            *final(self) == old(self).advanced(1),
            final(self).wf(),
    {
        let word: u32 = stream_word(self.seed, self.word_pos);
        if self.word_pos == STREAM_WORDS - 1 {
            self.word_pos = 0;
        } else {
            self.word_pos = self.word_pos + 1;
        }
        word
    }
}

/// Moving on by `a` words and then by `b` is moving on by `a + b`.
pub proof fn lemma_advanced_twice(rng: ChaseRng, a: nat, b: nat)
    requires
        rng.wf(),
    ensures
        rng.advanced(a).advanced(b) == rng.advanced(a + b),
        rng.advanced(a).wf(),
        rng.advanced(0) == rng,
        rng.advanced(a).word(b) == rng.word(a + b),
{
    let n: int = STREAM_WORDS as int;
    vstd::arithmetic::div_mod::lemma_add_mod_noop_right(b as int, rng.word_pos + a, n);
    vstd::arithmetic::div_mod::lemma_small_mod(rng.word_pos as nat, n as nat);
    assert((rng.word_pos + a) % n + b == b + (rng.word_pos + a) % n);
    assert(((rng.word_pos + a) % n + b) % n == (rng.word_pos + (a + b)) % n);
}

/// One of -1, 0 and 1, picked by a word of the stream.
pub open spec fn step_of(word: u32) -> int {
    word as int % 3 - 1
}

/// -1, 0 or 1 as `v` is negative, zero or positive.
pub open spec fn sign_of(v: int) -> int {
    if v < 0 {
        -1
    } else if v > 0 {
        1
    } else {
        0
    }
}

/// The square of the distance between two points `(tx, ty)` apart.
pub open spec fn distance_squared(tx: int, ty: int) -> int {
    tx * tx + ty * ty
}

/// Whether a chaser at the squared distance `d2` is nearer than
/// `panic_distance`.
pub open spec fn in_panic(d2: int, panic_distance: int) -> bool {
    panic_distance > 0 && d2 < panic_distance * panic_distance
}

/// The direction before jitter: straight away from the chaser in a panic,
/// else as drawn.
pub open spec fn heading(panic: bool, tx: int, ty: int, draws: Draws) -> (int, int) {
    if panic {
        (sign_of(tx), sign_of(ty))
    } else {
        (step_of(draws.heading_x), step_of(draws.heading_y))
    }
}

/// The jitter: one step on each axis, as drawn.
pub open spec fn jitter(draws: Draws) -> (int, int) {
    (step_of(draws.jitter_x), step_of(draws.jitter_y))
}

/// The direction of the move: the heading plus the jitter, unless the two
/// cancel; then the heading alone in a panic, else the jitter alone.
pub open spec fn move_vector(panic: bool, tx: int, ty: int, draws: Draws) -> (int, int) {
    let h = heading(panic, tx, ty, draws);
    let j = jitter(draws);
    if h.0 + j.0 == 0 && h.1 + j.1 == 0 {
        if panic {
            h
        } else {
            j
        }
    } else {
        (h.0 + j.0, h.1 + j.1)
    }
}

/// Whether `panic_distance / (distance + 1) * max_speed`, rounded to the
/// nearest integer with ties upwards, is at least `k`, for `k` at least
/// one and the distance the square root of `d2`. That is so when twice the
/// product of `panic_distance` and `max_speed` is at least `2k - 1` times
/// the distance plus one; the root is taken out by squaring.
pub open spec fn reaches(panic_distance: int, max_speed: int, d2: int, k: int) -> bool {
    let slack = 2 * panic_distance * max_speed - (2 * k - 1);
    slack >= 0 && slack * slack >= (2 * k - 1) * (2 * k - 1) * d2
}

/// The greatest speed from 2 to `k` that is reached, or 1 if there is
/// none.
pub open spec fn panic_speed_upto(panic_distance: int, max_speed: int, d2: int, k: int) -> int
    decreases k,
{
    if k <= 1 {
        1
    } else if reaches(panic_distance, max_speed, d2, k) {
        k
    } else {
        panic_speed_upto(panic_distance, max_speed, d2, k - 1)
    }
}

/// The speed in a panic: `panic_distance / (distance + 1) * max_speed`
/// rounded to the nearest integer, but at most `max_speed` and at least 1.
pub open spec fn panic_speed(panic_distance: int, max_speed: int, d2: int) -> int {
    panic_speed_upto(panic_distance, max_speed, d2, max_speed)
}

/// The speed while wandering: from 0 to `max_speed`, as drawn.
pub open spec fn calm_speed(word: u32, max_speed: int) -> int {
    word as int % (max_speed + 1)
}

/// The speed of the move.
pub open spec fn speed_of(
    panic: bool,
    panic_distance: int,
    max_speed: int,
    d2: int,
    draws: Draws,
) -> int {
    if panic {
        panic_speed(panic_distance, max_speed, d2)
    } else {
        calm_speed(draws.speed, max_speed)
    }
}

/// A coordinate brought onto a display `screen` pixels across by going
/// round: the remainder that is never negative.
pub open spec fn wrapped(v: int, screen: int) -> int {
    v % screen
}

/// Whether the chaser at `chaser_center` puts the runner at
/// `runner_center` in a panic.
pub open spec fn panics(runner_center: Point, chaser_center: Point, panic_distance: int) -> bool {
    in_panic(
        distance_squared(runner_center.x - chaser_center.x, runner_center.y - chaser_center.y),
        panic_distance,
    )
}

/// How far the step carries the runner along each axis, before going
/// round the display.
pub open spec fn displacement(
    runner_center: Point,
    chaser_center: Point,
    draws: Draws,
    max_speed: int,
    panic_distance: int,
) -> (int, int) {
    let tx = runner_center.x - chaser_center.x;
    let ty = runner_center.y - chaser_center.y;
    let d2 = distance_squared(tx, ty);
    let panic = in_panic(d2, panic_distance);
    let mv = move_vector(panic, tx, ty, draws);
    let speed = speed_of(panic, panic_distance, max_speed, d2, draws);
    (mv.0 * speed, mv.1 * speed)
}

/// The top-left corner that the runner takes next: its centre moved by the
/// displacement, turned into a top-left corner by taking off half the size,
/// and brought onto the display by going round.
pub open spec fn fled_to(
    runner_center: Point,
    runner_size: Size,
    chaser_center: Point,
    draws: Draws,
    max_speed: int,
    panic_distance: int,
) -> Point {
    let by = displacement(runner_center, chaser_center, draws, max_speed, panic_distance);
    Point {
        x: wrapped(
            runner_center.x + by.0 - runner_size.width as int / 2,
            TFT_DISPLAY_WIDTH as int,
        ) as i32,
        y: wrapped(
            runner_center.y + by.1 - runner_size.height as int / 2,
            TFT_DISPLAY_HEIGHT as int,
        ) as i32,
    }
}

/// The words that a step draws from the stream at `rng`: in a panic the
/// two for the jitter, else two for the heading, two for the jitter and
/// one for the speed, in this order. What is not drawn is zero.
pub open spec fn draws_at(rng: ChaseRng, panic: bool) -> Draws {
    if panic {
        Draws { heading_x: 0, heading_y: 0, jitter_x: rng.word(0), jitter_y: rng.word(1), speed: 0 }
    } else {
        Draws {
            heading_x: rng.word(0),
            heading_y: rng.word(1),
            jitter_x: rng.word(2),
            jitter_y: rng.word(3),
            speed: rng.word(4),
        }
    }
}

/// How many words a step draws.
pub open spec fn words_drawn(panic: bool) -> nat {
    if panic {
        2
    } else {
        5
    }
}

/// One of -1, 0 and 1, picked by `word`.
pub fn step(word: u32) -> (s: i32)
    ensures
        s == step_of(word),
{
    (word % 3) as i32 - 1
}

/// -1, 0 or 1 as `v` is negative, zero or positive.
pub fn sign(v: i64) -> (s: i32)
    ensures
        s == sign_of(v as int),
{
    if v < 0 {
        -1
    } else if v > 0 {
        1
    } else {
        0
    }
}

/// `v` brought onto a display `screen` pixels across by going round.
pub fn wrap_coordinate(v: i64, screen: u16) -> (r: i32)
    requires
        screen > 0,
    ensures
        r == wrapped(v as int, screen as int),
        0 <= r < screen,
{
    let n: i64 = screen as i64;
    if v >= 0 {
        (v % n) as i32
    } else {
        let below: i64 = -(v + 1);
        let m: i64 = below % n;
        proof {
            let q: int = below as int / n as int;
            vstd::arithmetic::div_mod::lemma_fundamental_div_mod(below as int, n as int);
            assert(v as int == (-(q + 1)) * n as int + (n as int - 1 - m as int))
                by (nonlinear_arith)
                requires
                    below as int == n as int * q + m as int,
                    below as int == -(v as int + 1),
            ;
            vstd::arithmetic::div_mod::lemma_fundamental_div_mod_converse(
                v as int,
                n as int,
                -(q + 1),
                n as int - 1 - m as int,
            );
        }
        (n - 1 - m) as i32
    }
}

/// The top-left corner `top_left` brought onto the display by going round
/// on each axis.
pub fn wrap_to_screen(top_left: Point) -> (p: Point)
    ensures
        p.x == wrapped(top_left.x as int, TFT_DISPLAY_WIDTH as int),
        p.y == wrapped(top_left.y as int, TFT_DISPLAY_HEIGHT as int),
{
    Point {
        x: wrap_coordinate(top_left.x as i64, TFT_DISPLAY_WIDTH),
        y: wrap_coordinate(top_left.y as i64, TFT_DISPLAY_HEIGHT),
    }
}

/// If a speed is reached, so is every lower one.
pub proof fn lemma_reaches_lower(panic_distance: int, max_speed: int, d2: int, k: int)
    requires
        k >= 1,
        d2 >= 0,
        reaches(panic_distance, max_speed, d2, k + 1),
    ensures
        reaches(panic_distance, max_speed, d2, k),
{
    let q: int = 2 * panic_distance * max_speed;
    let a: int = 2 * k - 1;
    let s: int = q - (a + 2);
    assert(q - (2 * (k + 1) - 1) == s);
    assert((2 * (k + 1) - 1) * (2 * (k + 1) - 1) * d2 == (a + 2) * (a + 2) * d2);
    assert((s + 2) * (s + 2) >= a * a * d2) by (nonlinear_arith)
        requires
            s >= 0,
            a >= 1,
            d2 >= 0,
            s * s >= (a + 2) * (a + 2) * d2,
    ;
}

/// If `k + 1` is not reached, no speed above `k` is.
pub proof fn lemma_not_reached_above(panic_distance: int, max_speed: int, d2: int, k: int, j: int)
    requires
        k >= 1,
        d2 >= 0,
        j > k,
        !reaches(panic_distance, max_speed, d2, k + 1),
    ensures
        !reaches(panic_distance, max_speed, d2, j),
    decreases j - k,
{
    if j > k + 1 {
        lemma_not_reached_above(panic_distance, max_speed, d2, k, j - 1);
        if reaches(panic_distance, max_speed, d2, j) {
            lemma_reaches_lower(panic_distance, max_speed, d2, j - 1);
        }
    }
}

/// The speed in a panic is the one speed from 1 to `max_speed` that is
/// reached while the next is not, where 1 counts as reached and
/// `max_speed + 1` as not.
pub proof fn lemma_panic_speed_is(panic_distance: int, max_speed: int, d2: int, v: int, k: int)
    requires
        d2 >= 0,
        1 <= v <= k,
        v == 1 || reaches(panic_distance, max_speed, d2, v),
        v == k || !reaches(panic_distance, max_speed, d2, v + 1),
    ensures
        panic_speed_upto(panic_distance, max_speed, d2, k) == v,
    decreases k - v,
{
    if k > v {
        lemma_not_reached_above(panic_distance, max_speed, d2, v, k);
        lemma_panic_speed_is(panic_distance, max_speed, d2, v, k - 1);
    }
}

/// Whether the speed `k` is reached in a panic at the squared distance
/// `d2`.
pub fn speed_reached(panic_distance: i32, max_speed: i32, d2: i128, k: i32) -> (reached: bool)
    requires
        panic_distance > 0,
        max_speed >= 0,
        0 <= d2 < panic_distance as int * panic_distance as int,
        k >= 1,
    ensures
        reached == reaches(panic_distance as int, max_speed as int, d2 as int, k as int),
{
    proof {
        lemma_product_bounded(panic_distance as int, max_speed as int, 0x7fff_ffff, 0x7fff_ffff);
        lemma_product_bounded(
            panic_distance as int,
            panic_distance as int,
            0x7fff_ffff,
            0x7fff_ffff,
        );
        assert(2 * panic_distance as int * max_speed as int == 2 * (panic_distance as int
            * max_speed as int)) by (nonlinear_arith);
    }
    let product: i128 = panic_distance as i128 * max_speed as i128;
    let odd: i128 = 2 * (k as i128) - 1;
    let slack: i128 = 2 * product - odd;
    if slack < 0 {
        return false;
    }
    proof {
        lemma_product_bounded(
            slack as int,
            slack as int,
            0x7fff_ffff_ffff_ffff,
            0x7fff_ffff_ffff_ffff,
        );
        lemma_product_bounded(odd as int, odd as int, 0xffff_ffff, 0xffff_ffff);
        lemma_product_bounded(
            odd as int * odd as int,
            d2 as int,
            0xffff_ffffint * 0xffff_ffffint,
            0x7fff_ffffint * 0x7fff_ffffint,
        );
    }
    slack * slack >= odd * odd * d2
}

/// The speed in a panic at the squared distance `d2`.
pub fn flee_speed(panic_distance: i32, max_speed: i32, d2: i128) -> (speed: i32)
    requires
        panic_distance > 0,
        max_speed >= 0,
        0 <= d2 < panic_distance as int * panic_distance as int,
    ensures
        speed == panic_speed(panic_distance as int, max_speed as int, d2 as int),
        1 <= speed,
        speed <= max_speed || speed == 1,
{
    if max_speed <= 1 {
        return 1;
    }
    let mut low: i32 = 1;
    let mut high: i32 = max_speed;
    while low < high
        invariant
            panic_distance > 0,
            max_speed >= 0,
            0 <= d2 < panic_distance as int * panic_distance as int,
            1 <= low <= high <= max_speed,
            low == 1 || reaches(panic_distance as int, max_speed as int, d2 as int, low as int),
            high == max_speed || !reaches(
                panic_distance as int,
                max_speed as int,
                d2 as int,
                high as int + 1,
            ),
        decreases high - low,
    {
        let middle: i32 = low + (high - low + 1) / 2;
        if speed_reached(panic_distance, max_speed, d2, middle) {
            low = middle;
        } else {
            high = middle - 1;
        }
    }
    proof {
        lemma_panic_speed_is(
            panic_distance as int,
            max_speed as int,
            d2 as int,
            low as int,
            max_speed as int,
        );
    }
    low
}

/// Where the runner goes next, given the words drawn for the step. In a
/// panic the words for the heading and the speed are not looked at.
pub fn next_position(
    runner: &Sprite,
    chaser: &Sprite,
    draws: Draws,
    max_speed: i32,
    panic_distance: i32,
) -> (p: Point)
    requires
        runner.wf(),
        chaser.wf(),
        max_speed >= 0,
    ensures
        p == fled_to(
            runner.center_of(),
            runner.size,
            chaser.center_of(),
            draws,
            max_speed as int,
            panic_distance as int,
        ),
        0 <= p.x < TFT_DISPLAY_WIDTH,
        0 <= p.y < TFT_DISPLAY_HEIGHT,
{
    let runner_center: Point = runner.center();
    let chaser_center: Point = chaser.center();
    let tx: i64 = runner_center.x as i64 - chaser_center.x as i64;
    let ty: i64 = runner_center.y as i64 - chaser_center.y as i64;
    let panic: bool = chaser_is_near(tx, ty, panic_distance);
    let ghost d2: int = distance_squared(tx as int, ty as int);
    let (dx, dy): (i32, i32) = if panic {
        (sign(tx), sign(ty))
    } else {
        (step(draws.heading_x), step(draws.heading_y))
    };
    let jitter_x: i32 = step(draws.jitter_x);
    let jitter_y: i32 = step(draws.jitter_y);
    let mut move_x: i32 = dx + jitter_x;
    let mut move_y: i32 = dy + jitter_y;
    if move_x == 0 && move_y == 0 {
        if panic {
            move_x = dx;
            move_y = dy;
        } else {
            move_x = jitter_x;
            move_y = jitter_y;
        }
    }
    assert((move_x as int, move_y as int) == move_vector(panic, tx as int, ty as int, draws));
    let speed: i32 = if panic {
        proof {
            lemma_squares_bounded(tx as int, ty as int);
        }
        let d2: i128 = (tx as i128) * (tx as i128) + (ty as i128) * (ty as i128);
        flee_speed(panic_distance, max_speed, d2)
    } else {
        (draws.speed % (max_speed as u32 + 1)) as i32
    };
    assert(speed == speed_of(panic, panic_distance as int, max_speed as int, d2, draws));
    proof {
        lemma_step_bounded(move_x as int, speed as int);
        lemma_step_bounded(move_y as int, speed as int);
    }
    let half_width: i64 = (runner.size.width / 2) as i64;
    let half_height: i64 = (runner.size.height / 2) as i64;
    let left: i64 = runner_center.x as i64 + move_x as i64 * speed as i64 - half_width;
    let top: i64 = runner_center.y as i64 + move_y as i64 * speed as i64 - half_height;
    Point {
        x: wrap_coordinate(left, TFT_DISPLAY_WIDTH),
        y: wrap_coordinate(top, TFT_DISPLAY_HEIGHT),
    }
}

/// Whether a chaser `(tx, ty)` away is nearer than `panic_distance`.
pub fn chaser_is_near(tx: i64, ty: i64, panic_distance: i32) -> (near: bool)
    requires
        -0x1_0000_0000 < tx < 0x1_0000_0000,
        -0x1_0000_0000 < ty < 0x1_0000_0000,
    ensures
        near == in_panic(distance_squared(tx as int, ty as int), panic_distance as int),
{
    if panic_distance <= 0 {
        return false;
    }
    proof {
        lemma_squares_bounded(tx as int, ty as int);
        lemma_product_bounded(
            panic_distance as int,
            panic_distance as int,
            0x7fff_ffff,
            0x7fff_ffff,
        );
    }
    let d2: i128 = (tx as i128) * (tx as i128) + (ty as i128) * (ty as i128);
    d2 < (panic_distance as i128) * (panic_distance as i128)
}

/// The squares of two differences of coordinates, and their sum, are
/// small enough to be held in 128 bits.
pub proof fn lemma_squares_bounded(tx: int, ty: int)
    by (nonlinear_arith)
    requires
        -0x1_0000_0000 < tx < 0x1_0000_0000,
        -0x1_0000_0000 < ty < 0x1_0000_0000,
    ensures
        0 <= tx * tx <= 0x1_0000_0000 * 0x1_0000_0000,
        0 <= ty * ty <= 0x1_0000_0000 * 0x1_0000_0000,
{
}

/// A direction of at most two steps times a speed stays within twice the
/// speed.
pub proof fn lemma_step_bounded(m: int, speed: int)
    by (nonlinear_arith)
    requires
        -2 <= m <= 2,
        0 <= speed,
    ensures
        -2 * speed <= m * speed <= 2 * speed,
{
}

/// One step of the runner: draws what the step needs from `rng` and says
/// where the runner goes next.
pub fn run_away_from(
    runner: &Sprite,
    chaser: &Sprite,
    rng: &mut ChaseRng,
    max_speed: i32,
    panic_distance: i32,
) -> (p: Point)
    requires
        runner.wf(),
        chaser.wf(),
        old(rng).wf(),
        max_speed >= 0,
    ensures
        p == fled_to(
            runner.center_of(),
            runner.size,
            chaser.center_of(),
            draws_at(
                *old(rng),
                panics(runner.center_of(), chaser.center_of(), panic_distance as int),
            ),
            max_speed as int,
            panic_distance as int,
        ),
        *final(rng) == old(rng).advanced(
            words_drawn(panics(runner.center_of(), chaser.center_of(), panic_distance as int)),
        ),
        final(rng).wf(),
        0 <= p.x < TFT_DISPLAY_WIDTH,
        0 <= p.y < TFT_DISPLAY_HEIGHT,
{
    let runner_center: Point = runner.center();
    let chaser_center: Point = chaser.center();
    let panic: bool = chaser_is_near(
        runner_center.x as i64 - chaser_center.x as i64,
        runner_center.y as i64 - chaser_center.y as i64,
        panic_distance,
    );
    let ghost start: ChaseRng = *rng;
    let draws: Draws = if panic {
        let jitter_x: u32 = rng.next_u32();
        let jitter_y: u32 = rng.next_u32();
        proof {
            lemma_advanced_twice(start, 1, 1);
            lemma_advanced_twice(start, 0, 0);
        }
        Draws { heading_x: 0, heading_y: 0, jitter_x, jitter_y, speed: 0 }
    } else {
        let heading_x: u32 = rng.next_u32();
        let heading_y: u32 = rng.next_u32();
        let jitter_x: u32 = rng.next_u32();
        let jitter_y: u32 = rng.next_u32();
        let speed: u32 = rng.next_u32();
        proof {
            lemma_advanced_twice(start, 0, 0);
            lemma_advanced_twice(start, 1, 1);
            lemma_advanced_twice(start, 2, 1);
            lemma_advanced_twice(start, 3, 1);
            lemma_advanced_twice(start, 4, 1);
            lemma_advanced_twice(start, 1, 0);
            lemma_advanced_twice(start, 2, 0);
            lemma_advanced_twice(start, 3, 0);
            lemma_advanced_twice(start, 4, 0);
        }
        Draws { heading_x, heading_y, jitter_x, jitter_y, speed }
    };
    next_position(runner, chaser, draws, max_speed, panic_distance)
}

/// The gap within which two sprites count as having met, in pixels.
pub const COLLISION_THRESHOLD: u32 = 15;

/// Whether two points are less than `threshold` apart on both axes.
pub open spec fn colliding(a: Point, b: Point, threshold: int) -> bool {
    let gap_x = if a.x >= b.x {
        a.x - b.x
    } else {
        b.x - a.x
    };
    let gap_y = if a.y >= b.y {
        a.y - b.y
    } else {
        b.y - a.y
    };
    gap_x < threshold && gap_y < threshold
}

/// Whether the points `a` and `b` are less than `threshold` apart on both
/// axes.
pub fn centers_collide(a: Point, b: Point, threshold: u32) -> (hit: bool)
    ensures
        hit == colliding(a, b, threshold as int),
{
    let gap_x: i64 = if a.x >= b.x {
        a.x as i64 - b.x as i64
    } else {
        b.x as i64 - a.x as i64
    };
    let gap_y: i64 = if a.y >= b.y {
        a.y as i64 - b.y as i64
    } else {
        b.y as i64 - a.y as i64
    };
    gap_x < threshold as i64 && gap_y < threshold as i64
}

/// Whether the centres of two sprites are less than
/// `COLLISION_THRESHOLD` apart on both axes.
pub fn is_colliding(a: &Sprite, b: &Sprite) -> (hit: bool)
    requires
        a.wf(),
        b.wf(),
    ensures
        hit == colliding(a.center_of(), b.center_of(), COLLISION_THRESHOLD as int),
{
    centers_collide(a.center(), b.center(), COLLISION_THRESHOLD)
}

/// Which of two points is named first makes no difference to whether they
/// collide.
pub proof fn lemma_collision_symmetric(a: Point, b: Point, threshold: int)
    ensures
        colliding(a, b, threshold) == colliding(b, a, threshold),
{
}

/// Two generators at the same place of the stream of the same seed draw
/// the same words, send the runner to the same position and are at the
/// same place afterwards: a run can be repeated step for step.
pub proof fn lemma_same_seed_same_step(
    first: ChaseRng,
    second: ChaseRng,
    runner_center: Point,
    runner_size: Size,
    chaser_center: Point,
    max_speed: int,
    panic_distance: int,
)
    requires
        first.seed == second.seed,
        first.word_pos == second.word_pos,
    ensures
        forall|panic: bool| draws_at(first, panic) == draws_at(second, panic),
        forall|count: nat| first.advanced(count) == second.advanced(count),
        fled_to(
            runner_center,
            runner_size,
            chaser_center,
            draws_at(first, panics(runner_center, chaser_center, panic_distance)),
            max_speed,
            panic_distance,
        ) == fled_to(
            runner_center,
            runner_size,
            chaser_center,
            draws_at(second, panics(runner_center, chaser_center, panic_distance)),
            max_speed,
            panic_distance,
        ),
{
    assert(first == second);
}

/// The centre of a footprint of the given size with its top-left corner
/// at `pos`.
pub open spec fn center_from(pos: Point, size: Size) -> Point {
    Point { x: (pos.x + size.width / 2) as i32, y: (pos.y + size.height / 2) as i32 }
}

/// The positions that a runner takes in a run: it starts at `start` with
/// the stream at `rng`, and in each step flees from the next of the
/// chaser's centres, drawing from the stream what the step needs and going
/// on from where the step has taken it.
pub open spec fn trajectory(
    rng: ChaseRng,
    start: Point,
    size: Size,
    chasers: Seq<Point>,
    max_speed: int,
    panic_distance: int,
) -> Seq<Point>
    decreases chasers.len(),
{
    if chasers.len() == 0 {
        Seq::empty()
    } else {
        let center = center_from(start, size);
        let panic = panics(center, chasers[0], panic_distance);
        let next = fled_to(
            center,
            size,
            chasers[0],
            draws_at(rng, panic),
            max_speed,
            panic_distance,
        );
        seq![next] + trajectory(
            rng.advanced(words_drawn(panic)),
            next,
            size,
            chasers.drop_first(),
            max_speed,
            panic_distance,
        )
    }
}

/// Two runs that start at the same place of the stream of the same seed,
/// from the same position and against the same chaser, take the same
/// positions step for step, however long they are.
pub proof fn lemma_same_seed_same_trajectory(
    first: ChaseRng,
    second: ChaseRng,
    start: Point,
    size: Size,
    chasers: Seq<Point>,
    max_speed: int,
    panic_distance: int,
)
    requires
        first.seed == second.seed,
        first.word_pos == second.word_pos,
    ensures
        trajectory(first, start, size, chasers, max_speed, panic_distance) == trajectory(
            second,
            start,
            size,
            chasers,
            max_speed,
            panic_distance,
        ),
    decreases chasers.len(),
{
    if chasers.len() > 0 {
        let center = center_from(start, size);
        let panic = panics(center, chasers[0], panic_distance);
        lemma_same_seed_same_step(
            first,
            second,
            center,
            size,
            chasers[0],
            max_speed,
            panic_distance,
        );
        let next = fled_to(
            center,
            size,
            chasers[0],
            draws_at(first, panic),
            max_speed,
            panic_distance,
        );
        lemma_same_seed_same_trajectory(
            first.advanced(words_drawn(panic)),
            second.advanced(words_drawn(panic)),
            next,
            size,
            chasers.drop_first(),
            max_speed,
            panic_distance,
        );
    }
}

/// The speed in a panic is at least 1, and at most `max_speed` where that
/// is at least 1.
pub proof fn lemma_panic_speed_bounds(panic_distance: int, max_speed: int, d2: int, k: int)
    ensures
        1 <= panic_speed_upto(panic_distance, max_speed, d2, k),
        panic_speed_upto(panic_distance, max_speed, d2, k) <= k || panic_speed_upto(
            panic_distance,
            max_speed,
            d2,
            k,
        ) == 1,
    decreases k,
{
    if k > 1 {
        lemma_panic_speed_bounds(panic_distance, max_speed, d2, k - 1);
    }
}

/// The top-left corner from which a sprite of the given size has its
/// centre at `center`.
pub open spec fn corner_of(center: Point, size: Size) -> (int, int) {
    (center.x - size.width as int / 2, center.y - size.height as int / 2)
}

/// A step leaves the runner where it was exactly when the runner was on
/// the display and the step carries it a whole number of display widths
/// along x and of display heights along y, zero included.
pub proof fn lemma_stalls_exactly_when(
    runner_center: Point,
    runner_size: Size,
    chaser_center: Point,
    draws: Draws,
    max_speed: int,
    panic_distance: int,
)
    ensures
        ({
            let target = fled_to(
                runner_center,
                runner_size,
                chaser_center,
                draws,
                max_speed,
                panic_distance,
            );
            let before = corner_of(runner_center, runner_size);
            let by = displacement(runner_center, chaser_center, draws, max_speed, panic_distance);
            (target.x == before.0 && target.y == before.1) <==> {
                &&& 0 <= before.0 < TFT_DISPLAY_WIDTH
                &&& 0 <= before.1 < TFT_DISPLAY_HEIGHT
                &&& by.0 % (TFT_DISPLAY_WIDTH as int) == 0
                &&& by.1 % (TFT_DISPLAY_HEIGHT as int) == 0
            }
        }),
{
    let before = corner_of(runner_center, runner_size);
    let by = displacement(runner_center, chaser_center, draws, max_speed, panic_distance);
    lemma_goes_round(before.0, by.0, TFT_DISPLAY_WIDTH as int);
    lemma_goes_round(before.1, by.1, TFT_DISPLAY_HEIGHT as int);
    assert(runner_center.x + by.0 - runner_size.width as int / 2 == before.0 + by.0);
    assert(runner_center.y + by.1 - runner_size.height as int / 2 == before.1 + by.1);
}

/// The runner's next position is its present one exactly when it stands
/// on the display and the step carries it a whole number of display widths
/// along x and of display heights along y, zero included. So a wandering
/// runner stays where it is when its speed is drawn as zero, or when its
/// heading and its jitter are both drawn as zero.
pub proof fn lemma_runner_stalls_exactly_when(
    runner: Sprite,
    chaser_center: Point,
    draws: Draws,
    max_speed: int,
    panic_distance: int,
)
    requires
        runner.wf(),
    ensures
        ({
            let by = displacement(
                runner.center_of(),
                chaser_center,
                draws,
                max_speed,
                panic_distance,
            );
            fled_to(
                runner.center_of(),
                runner.size,
                chaser_center,
                draws,
                max_speed,
                panic_distance,
            ) == runner.pos <==> {
                &&& 0 <= runner.pos.x < TFT_DISPLAY_WIDTH
                &&& 0 <= runner.pos.y < TFT_DISPLAY_HEIGHT
                &&& by.0 % (TFT_DISPLAY_WIDTH as int) == 0
                &&& by.1 % (TFT_DISPLAY_HEIGHT as int) == 0
            }
        }),
{
    lemma_stalls_exactly_when(
        runner.center_of(),
        runner.size,
        chaser_center,
        draws,
        max_speed,
        panic_distance,
    );
}

/// A coordinate moved by `by` and brought back onto the display is what
/// it was exactly when it was on the display and `by` is a whole number of
/// display extents.
pub proof fn lemma_goes_round(v: int, by: int, screen: int)
    requires
        0 < screen <= 0xffff,
    ensures
        0 <= wrapped(v + by, screen) < screen,
        wrapped(v + by, screen) == v <==> 0 <= v < screen && by % screen == 0,
{
    vstd::arithmetic::div_mod::lemma_mod_bound(v + by, screen);
    if 0 <= v < screen {
        vstd::arithmetic::div_mod::lemma_fundamental_div_mod(by, screen);
        vstd::arithmetic::div_mod::lemma_mod_bound(by, screen);
        vstd::arithmetic::div_mod::lemma_fundamental_div_mod(v + by, screen);
        let q: int = by / screen;
        let r: int = by % screen;
        let q2: int = (v + by) / screen;
        if r == 0 {
            vstd::arithmetic::div_mod::lemma_fundamental_div_mod_converse(v + by, screen, q, v);
            assert(q * screen == screen * q) by (nonlinear_arith);
        } else if (v + by) % screen == v {
            assert(screen * (q2 - q) == r) by (nonlinear_arith)
                requires
                    v + by == screen * q2 + v,
                    by == screen * q + r,
            ;
            assert(false) by (nonlinear_arith)
                requires
                    screen * (q2 - q) == r,
                    0 < r < screen,
            ;
        }
    }
}

/// In a panic the runner always moves, provided that its centre is not
/// the chaser's, that it was on the display, and that twice the greatest
/// speed is at least 2 and less than the display's height, so that no
/// step goes all the way round.
pub proof fn lemma_panic_moves(
    runner_center: Point,
    runner_size: Size,
    chaser_center: Point,
    draws: Draws,
    max_speed: int,
    panic_distance: int,
)
    requires
        panics(runner_center, chaser_center, panic_distance),
        runner_center != chaser_center,
        1 <= max_speed,
        2 * max_speed < TFT_DISPLAY_HEIGHT,
        0 <= corner_of(runner_center, runner_size).0 < TFT_DISPLAY_WIDTH,
        0 <= corner_of(runner_center, runner_size).1 < TFT_DISPLAY_HEIGHT,
    ensures
        ({
            let target = fled_to(
                runner_center,
                runner_size,
                chaser_center,
                draws,
                max_speed,
                panic_distance,
            );
            let before = corner_of(runner_center, runner_size);
            target.x != before.0 || target.y != before.1
        }),
{
    let tx: int = runner_center.x - chaser_center.x;
    let ty: int = runner_center.y - chaser_center.y;
    let d2: int = distance_squared(tx, ty);
    let mv = move_vector(true, tx, ty, draws);
    let speed: int = panic_speed(panic_distance, max_speed, d2);
    let by = displacement(runner_center, chaser_center, draws, max_speed, panic_distance);
    lemma_panic_speed_bounds(panic_distance, max_speed, d2, max_speed);
    assert(mv.0 != 0 || mv.1 != 0);
    assert(-2 <= mv.0 <= 2 && -2 <= mv.1 <= 2);
    lemma_step_bounded(mv.0, speed);
    lemma_step_bounded(mv.1, speed);
    assert(by.0 == mv.0 * speed && by.1 == mv.1 * speed);
    assert(mv.0 != 0 ==> by.0 != 0) by (nonlinear_arith)
        requires
            by.0 == mv.0 * speed,
            speed >= 1,
    ;
    assert(mv.1 != 0 ==> by.1 != 0) by (nonlinear_arith)
        requires
            by.1 == mv.1 * speed,
            speed >= 1,
    ;
    lemma_stalls_exactly_when(
        runner_center,
        runner_size,
        chaser_center,
        draws,
        max_speed,
        panic_distance,
    );
    if by.0 != 0 {
        lemma_short_of_round(by.0, TFT_DISPLAY_WIDTH as int);
    } else {
        lemma_short_of_round(by.1, TFT_DISPLAY_HEIGHT as int);
    }
}

/// A move that is not zero and shorter than the display's extent is not a
/// whole number of extents.
pub proof fn lemma_short_of_round(by: int, screen: int)
    requires
        by != 0,
        -screen < by < screen,
    ensures
        by % screen != 0,
{
    if by > 0 {
        vstd::arithmetic::div_mod::lemma_small_mod(by as nat, screen as nat);
    } else {
        vstd::arithmetic::div_mod::lemma_fundamental_div_mod_converse(by, screen, -1, by + screen);
    }
}

} // verus!
