//! The noise around an echo, and echo profiles made of noise and a bump.

use rand::rngs::StdRng;
use rand::{Rng, SeedableRng};
use vstd::prelude::*;

verus! {

/// The seed that every stream of echoes starts its noise from.
pub const NOISE_SEED: u64 = 0x426c7565;

/// The standard generator of the `rand` crate.
#[verifier::external_type_specification]
#[verifier::external_body]
pub struct ExStdRng(rand::rngs::StdRng);

/// The words that a generator is going to hand out, by their position.
pub uninterp spec fn upcoming_words(rng: StdRng) -> Map<nat, u32>;

/// The words that a generator hands out that was made from `seed`, by their
/// position.
pub uninterp spec fn seeded_words(seed: u64) -> Map<nat, u32>;

/// Calls `StdRng::seed_from_u64`. The words of the new generator are fixed by
/// the seed: in the version in use it is the ChaCha cipher with 12 rounds, keyed
/// by the seed alone, and every back end of it computes the same rounds. Which
/// words they are is not said here. The crate's documentation promises them
/// neither across versions nor across platforms: the claim is made of the version
/// in use.
#[verifier::external_body]
pub(crate) fn seeded(seed: u64) -> (rng: StdRng)
    ensures
        upcoming_words(rng) == seeded_words(seed),
{
    StdRng::seed_from_u64(seed)
}

/// Calls `Rng::next_u32` of `StdRng`: it hands out the generator's first word,
/// and all others move up by one.
#[verifier::external_body]
pub(crate) fn next_word(rng: &mut StdRng) -> (word: u32)
    ensures
        word == upcoming_words(*old(rng))[0],
        forall|k: nat| #[trigger]
            upcoming_words(*final(rng))[k] == upcoming_words(*old(rng))[k + 1],
{
    rng.next_u32()
}

/// The noise in front of an echo: a tenth of the word's high byte.
pub open spec fn near_noise_of(word: u32) -> u8 {
    (word / 16777216 / 10) as u8
}

/// The noise behind an echo: nine twentieths of the word's high byte.
pub open spec fn far_noise_of(word: u32) -> u8 {
    ((word / 16777216) as int * 9 / 20) as u8
}

/// The noise in front of an echo.
pub fn near_noise(word: u32) -> (noise: u8)
    ensures
        noise == near_noise_of(word),
        noise <= 25,
        10 * noise <= word / 16777216 < 10 * noise + 10,
{
    assert(word >> 24 == word / 16777216) by (bit_vector);
    ((word >> 24) / 10) as u8
}

/// The noise behind an echo.
pub fn far_noise(word: u32) -> (noise: u8)
    ensures
        noise == far_noise_of(word),
        noise <= 114,
        20 * noise <= 9 * (word / 16777216) < 20 * noise + 20,
{
    assert(word >> 24 == word / 16777216) by (bit_vector);
    ((word >> 24) * 9 / 20) as u8
}

/// An echo: the heights of neighbouring points of a profile.
#[derive(Debug, PartialEq, Eq)]
pub struct Bump {
    /// The first point of the echo.
    pub start: usize,
    /// The height of each point of the echo.
    pub heights: Vec<u8>,
}

/// What a [`Bump`] holds.
pub struct BumpView {
    pub start: nat,
    pub heights: Seq<u8>,
}

impl View for Bump {
    type V = BumpView;

    open spec fn view(&self) -> BumpView {
        BumpView { start: self.start as nat, heights: self.heights@ }
    }
}

impl BumpView {
    /// The first point behind the echo.
    pub open spec fn stop(self) -> nat {
        self.start + self.heights.len()
    }

    /// How many of the first `count` points of a profile are noise.
    pub open spec fn noise_points(self, count: nat) -> nat {
        if count <= self.start {
            count
        } else if count <= self.stop() {
            self.start
        } else {
            (count - self.heights.len()) as nat
        }
    }

    /// The point of a profile at `index`, where the words from position `from`
    /// on are drawn for the profile's noise.
    pub open spec fn point(self, index: nat, words: Map<nat, u32>, from: nat) -> u8 {
        if index < self.start {
            near_noise_of(words[from + self.noise_points(index)])
        } else if index < self.stop() {
            self.heights[index - self.start]
        } else {
            far_noise_of(words[from + self.noise_points(index)])
        }
    }

    /// The first `points` points of a profile.
    pub open spec fn profile(self, points: nat, words: Map<nat, u32>, from: nat) -> Seq<u8> {
        Seq::new(points, |i: int| self.point(i as nat, words, from))
    }
}

/// A profile of `points` points: the bump, low noise in front of it and higher
/// noise behind it. Each point of noise draws one word from the generator, in
/// order.
pub fn fake_echo_profile(points: usize, bump: &Bump, rng: &mut StdRng) -> (data: Vec<u8>)
    ensures
        data@ == bump@.profile(points as nat, upcoming_words(*old(rng)), 0),
        data@.len() == points,
        forall|i: int|
            0 <= i < points && bump.start <= i < bump.start + bump.heights@.len()
                ==> #[trigger] data@[i] == bump.heights@[i - bump.start],
        forall|k: nat| #[trigger]
            upcoming_words(*final(rng))[k] == upcoming_words(*old(rng))[k + bump@.noise_points(
                points as nat,
            )],
{
    let ghost words = upcoming_words(*rng);
    let mut data: Vec<u8> = Vec::new();
    let mut index: usize = 0;
    while index < points
        invariant
            index <= points,
            words == upcoming_words(*old(rng)),
            data@ == bump@.profile(index as nat, words, 0),
            forall|k: nat| #[trigger]
                upcoming_words(*rng)[k] == words[k + bump@.noise_points(index as nat)],
        decreases points - index,
    {
        let ghost before = upcoming_words(*rng);
        let point: u8 = if index < bump.start {
            near_noise(next_word(rng))
        } else if index - bump.start < bump.heights.len() {
            bump.heights[index - bump.start]
        } else {
            far_noise(next_word(rng))
        };
        assert(before[0] == words[0 + bump@.noise_points(index as nat)]);
        assert(point == bump@.point(index as nat, words, 0));
        data.push(point);
        assert forall|k: nat| #[trigger]
            upcoming_words(*rng)[k] == words[k + bump@.noise_points((index + 1) as nat)] by {
            assert(before[k + 1] == words[(k + 1) + bump@.noise_points(index as nat)]);
            assert(before[k] == words[k + bump@.noise_points(index as nat)]);
        }
        index = index + 1;
        assert(data@ =~= bump@.profile(index as nat, words, 0));
    }
    data
}

/// A profile depends on the words that it draws alone, not on where they stand.
pub proof fn lemma_profile_shift(
    bump: BumpView,
    points: nat,
    words: Map<nat, u32>,
    all: Map<nat, u32>,
    from: nat,
)
    requires
        forall|k: nat| #[trigger] words[k] == all[k + from],
    ensures
        bump.profile(points, words, 0) == bump.profile(points, all, from),
{
    assert forall|i: nat| #[trigger] bump.point(i, words, 0) == bump.point(i, all, from) by {
        assert(words[0 + bump.noise_points(i)] == all[bump.noise_points(i) + from]);
    }
    assert(bump.profile(points, words, 0) =~= bump.profile(points, all, from));
}

/// A profile is the bump with noise on both sides: it has as many points as were
/// asked for, the bump's points stand in it as they are, and the noise stays low
/// in front of the bump and below half of the full height behind it.
pub proof fn law_bump_stands_in_noise(
    bump: BumpView,
    points: nat,
    words: Map<nat, u32>,
    from: nat,
)
    ensures
        bump.profile(points, words, from).len() == points,
        forall|i: int|
            0 <= i < points ==> {
                let point = #[trigger] bump.profile(points, words, from)[i];
                if i < bump.start {
                    point <= 25
                } else if i < bump.stop() {
                    point == bump.heights[i - bump.start]
                } else {
                    point <= 114
                }
            },
{
}

/// Noise is the share of the word's high byte that is its own, rounded down: a
/// tenth in front of the bump, and nine twentieths behind it.
pub proof fn law_noise_is_a_share_of_the_high_byte(word: u32)
    ensures
        10 * near_noise_of(word) <= word / 16777216 < 10 * near_noise_of(word) + 10,
        20 * far_noise_of(word) <= 9 * (word / 16777216) < 20 * far_noise_of(word) + 20,
{
}

/// Every point outside the bump draws one word, and every point of the bump draws
/// none.
pub proof fn law_each_point_of_noise_draws_one_word(bump: BumpView, count: nat)
    ensures
        bump.noise_points(0) == 0,
        bump.noise_points(count + 1) == bump.noise_points(count) + if bump.start <= count
            < bump.start + bump.heights.len() {
            0nat
        } else {
            1nat
        },
{
}

/// What each point of a profile is: in front of the bump the share of the word
/// with the point's own number, in the bump its height, and behind the bump the
/// share of the word that as many points of noise stand in front of.
pub proof fn law_points_of_a_profile(
    bump: BumpView,
    points: nat,
    words: Map<nat, u32>,
    from: nat,
    index: int,
)
    requires
        0 <= index < points,
    ensures
        bump.profile(points, words, from).len() == points,
        ({
            let point = bump.profile(points, words, from)[index];
            let width = bump.heights.len();
            if index < bump.start {
                let byte = words[(from + index) as nat] / 16777216;
                10 * point <= byte < 10 * point + 10
            } else if index < bump.start + width {
                point == bump.heights[index - bump.start]
            } else {
                let byte = words[(from + index - width) as nat] / 16777216;
                20 * point <= 9 * byte < 20 * point + 20
            }
        }),
{
}

/// A bump's view holds the bump's own fields.
pub proof fn law_bump_view(bump: Bump)
    ensures
        bump@.start == bump.start,
        bump@.heights == bump.heights@,
        bump@.stop() == bump.start + bump.heights@.len(),
{
}

} // verus!
