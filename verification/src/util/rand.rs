//! Random number generators.
//!
//! `Rand` is a xoshiro256** generator, seeded through SplitMix64 as
//! rand_xoshiro seeds it; its shuffle is rand's.
//!
//! `RandLCG` alternates two classic linear congruential generators (the
//! Microsoft C runtime one and the BSD `random` one). Its quality is poor,
//! but the sequence it produces can be reproduced exactly by other systems.
use rand::seq::SliceRandom;
use rand_xoshiro::rand_core::SeedableRng;
use rand_xoshiro::Xoshiro256StarStar;
use vstd::prelude::*;

verus! {

/// The state of a xoshiro256** generator: four 64-bit words.
#[derive(Clone, Copy)]
pub struct XoState {
    pub s0: u64,
    pub s1: u64,
    pub s2: u64,
    pub s3: u64,
}

/// `x` rotated left by `k` bits.
pub open spec fn rotl(x: u64, k: u64) -> u64
    recommends
        0 < k < 64,
{
    (x << k) | (x >> ((64 - k) as u64))
}

/// The number a xoshiro256** generator in state `st` draws next: the `**`
/// scrambler applied to the second word.
pub open spec fn xo_output(st: XoState) -> u64 {
    rotl(st.s1.wrapping_mul(5), 7).wrapping_mul(9)
}

/// The state of a xoshiro256** generator after one draw.
pub open spec fn xo_step(st: XoState) -> XoState {
    let t = st.s1 << 17u64;
    let s2 = st.s2 ^ st.s0;
    let s3 = st.s3 ^ st.s1;
    let s1 = st.s1 ^ s2;
    let s0 = st.s0 ^ s3;
    XoState { s0: s0, s1: s1, s2: s2 ^ t, s3: rotl(s3, 45) }
}

/// SplitMix64's output for the counter value `z`.
pub open spec fn splitmix_mix(z: u64) -> u64 {
    let z1 = (z ^ (z >> 30u64)).wrapping_mul(0xbf58476d1ce4e5b9);
    let z2 = (z1 ^ (z1 >> 27u64)).wrapping_mul(0x94d049bb133111eb);
    z2 ^ (z2 >> 31u64)
}

/// The counter of a SplitMix64 generator seeded with `seed` after `k`
/// draws: each draw adds the golden-ratio increment.
pub open spec fn splitmix_counter(seed: u64, k: nat) -> u64
    decreases k,
{
    if k == 0 {
        seed
    } else {
        splitmix_counter(seed, (k - 1) as nat).wrapping_add(0x9e3779b97f4a7c15)
    }
}

/// The state of a xoshiro256** generator seeded with `seed`: the first four
/// numbers of a SplitMix64 generator seeded with `seed`.
pub open spec fn seed_state(seed: u64) -> XoState {
    XoState {
        s0: splitmix_mix(splitmix_counter(seed, 1)),
        s1: splitmix_mix(splitmix_counter(seed, 2)),
        s2: splitmix_mix(splitmix_counter(seed, 3)),
        s3: splitmix_mix(splitmix_counter(seed, 4)),
    }
}

/// The eight bytes of `w`, least significant first.
pub open spec fn word_bytes(w: u64) -> Seq<u8> {
    Seq::new(8, |j: int| (w >> ((8 * j) as u64)) as u8)
}

/// The 32-byte seed that holds the state `st`: its words in order, each
/// little-endian.
pub open spec fn state_bytes(st: XoState) -> Seq<u8> {
    word_bytes(st.s0) + word_bytes(st.s1) + word_bytes(st.s2) + word_bytes(st.s3)
}

/// The little-endian word held by `b[off..off + 8]`.
pub open spec fn le_word(b: Seq<u8>, off: int) -> u64 {
    (b[off] as u64) | ((b[off + 1] as u64) << 8u64) | ((b[off + 2] as u64) << 16u64) | ((b[off
        + 3] as u64) << 24u64) | ((b[off + 4] as u64) << 32u64) | ((b[off + 5] as u64) << 40u64)
        | ((b[off + 6] as u64) << 48u64) | ((b[off + 7] as u64) << 56u64)
}

/// The state whose four words are stored little-endian in `b`.
pub open spec fn state_of_bytes(b: Seq<u8>) -> XoState {
    XoState { s0: le_word(b, 0), s1: le_word(b, 8), s2: le_word(b, 16), s3: le_word(b, 24) }
}

/// Where rand's shuffle, driven by a xoshiro256** generator made from the
/// 32-byte `seed`, puts the elements of a slice of length `len`: position
/// `k` receives the element from position `result[k]`.
pub uninterp spec fn xoshiro_shuffle_order(seed: Seq<u8>, len: nat) -> Seq<int>;

/// The state, as 32 little-endian bytes, of that generator after the
/// shuffle.
pub uninterp spec fn xoshiro_shuffle_state(seed: Seq<u8>, len: nat) -> Seq<u8>;

/// Where rand's shuffle, driven by a xoshiro256** generator in state `st`,
/// puts the elements of a slice of length `len`.
pub open spec fn shuffle_order(st: XoState, len: nat) -> Seq<int> {
    xoshiro_shuffle_order(state_bytes(st), len)
}

/// Calls rand's `SliceRandom::shuffle` on `v` with the generator that
/// `Xoshiro256StarStar::from_seed(seed)` makes (rand_xoshiro maps an
/// all-zero seed to the one `seed_from_u64(0)` makes), and gives back the
/// generator's state afterwards as bincode writes it (the struct's one
/// field, four `u64` words, little-endian: 32 bytes).
/// The shuffle only swaps elements (Fisher-Yates), and which swaps it makes
/// depends on the generator and the length alone, so the order and the
/// final state are named results of `seed` and the length. bincode's
/// serialisation of this type into a `Vec` cannot fail, so the `Err` arm is
/// never taken.
#[verifier::external_body]
fn xoshiro_shuffle<T: Copy>(v: &mut Vec<T>, seed: &Vec<u8>) -> (after: Vec<u8>)
    requires
        seed@.len() == 32,
    ensures
        final(v)@.len() == old(v)@.len(),
        forall|k: int|
            #![trigger final(v)@[k]]
            #![trigger xoshiro_shuffle_order(seed@, old(v)@.len())[k]]
            0 <= k < old(v)@.len() ==> 0 <= xoshiro_shuffle_order(seed@, old(v)@.len())[k] < old(
                v,
            )@.len() && final(v)@[k] == old(v)@[xoshiro_shuffle_order(seed@, old(v)@.len())[k]],
        final(v)@.to_multiset() =~= old(v)@.to_multiset(),
        after@ == xoshiro_shuffle_state(seed@, old(v)@.len()),
        after@.len() == 32,
{
    let mut bytes = [0u8; 32];
    bytes.copy_from_slice(seed);
    let mut rng = Xoshiro256StarStar::from_seed(bytes);
    v.shuffle(&mut rng);
    match bincode::serialize(&rng) {
        Ok(b) => b,
        Err(_) => Vec::new(),
    }
}

/// `x` rotated left by `k` bits.
fn rotate_left(x: u64, k: u64) -> (r: u64)
    requires
        0 < k < 64,
    ensures
        r == rotl(x, k),
{
    (x << k) | (x >> (64 - k))
}

/// SplitMix64's output for the counter value `z`.
fn splitmix(z: u64) -> (r: u64)
    ensures
        r == splitmix_mix(z),
{
    let z1 = (z ^ (z >> 30u64)).wrapping_mul(0xbf58476d1ce4e5b9);
    let z2 = (z1 ^ (z1 >> 27u64)).wrapping_mul(0x94d049bb133111eb);
    z2 ^ (z2 >> 31u64)
}

/// The state a xoshiro256** generator seeded with `seed` starts in.
fn seeded_state(seed: u64) -> (st: XoState)
    ensures
        st == seed_state(seed),
{
    let c1 = seed.wrapping_add(0x9e3779b97f4a7c15);
    let c2 = c1.wrapping_add(0x9e3779b97f4a7c15);
    let c3 = c2.wrapping_add(0x9e3779b97f4a7c15);
    let c4 = c3.wrapping_add(0x9e3779b97f4a7c15);
    proof {
        reveal_with_fuel(splitmix_counter, 5);
    }
    XoState { s0: splitmix(c1), s1: splitmix(c2), s2: splitmix(c3), s3: splitmix(c4) }
}

/// Appends the eight bytes of `x` to `b`, least significant first.
fn push_word(b: &mut Vec<u8>, x: u64)
    ensures
        final(b)@ == old(b)@ + word_bytes(x),
{
    let mut j: u64 = 0;
    while j < 8
        invariant
            j <= 8,
            b@ =~= old(b)@ + word_bytes(x).take(j as int),
        decreases 8 - j,
    {
        b.push((x >> (8 * j)) as u8);
        j += 1;
    }
    assert(word_bytes(x).take(8) =~= word_bytes(x));
}

/// The 32-byte seed that holds `st`.
fn state_to_bytes(st: &XoState) -> (b: Vec<u8>)
    ensures
        b@ == state_bytes(*st),
{
    let mut b: Vec<u8> = Vec::new();
    push_word(&mut b, st.s0);
    push_word(&mut b, st.s1);
    push_word(&mut b, st.s2);
    push_word(&mut b, st.s3);
    assert(b@ =~= state_bytes(*st));
    b
}

/// The state stored little-endian in the 32 bytes `b`.
fn state_from_bytes(b: &Vec<u8>) -> (st: XoState)
    requires
        b@.len() == 32,
    ensures
        st == state_of_bytes(b@),
{
    XoState {
        s0: word_at(b, 0),
        s1: word_at(b, 8),
        s2: word_at(b, 16),
        s3: word_at(b, 24),
    }
}

/// The little-endian word held by `b[off..off + 8]`.
fn word_at(b: &Vec<u8>, off: usize) -> (w: u64)
    requires
        b@.len() == 32,
        off <= 24,
    ensures
        w == le_word(b@, off as int),
{
    (b[off] as u64) | ((b[off + 1] as u64) << 8u64) | ((b[off + 2] as u64) << 16u64) | ((b[off
        + 3] as u64) << 24u64) | ((b[off + 4] as u64) << 32u64) | ((b[off + 5] as u64) << 40u64)
        | ((b[off + 6] as u64) << 48u64) | ((b[off + 7] as u64) << 56u64)
}

impl Default for Rand {
    fn default() -> (r: Self)
        ensures
            r@ == seed_state(0),
    {
        Rand::new()
    }
}

/// A xoshiro256** random number generator.
pub struct Rand {
    state: XoState,
}

impl View for Rand {
    type V = XoState;

    closed spec fn view(&self) -> XoState {
        self.state
    }
}

impl Rand {
    /// A generator seeded with 0.
    pub fn new() -> (r: Self)
        ensures
            r@ == seed_state(0),
    {
        Rand { state: seeded_state(0) }
    }

    /// Replaces the generator with a fresh one seeded with `seed`.
    pub fn srand(&mut self, seed: u64)
        ensures
            final(self)@ == seed_state(seed),
    {
        self.state = seeded_state(seed);
    }

    /// Draws a 64-bit number.
    pub fn rand64(&mut self) -> (r: u64)
        ensures
            r == xo_output(old(self)@),
            final(self)@ == xo_step(old(self)@),
    {
        let st = self.state;
        let r = rotate_left(st.s1.wrapping_mul(5), 7).wrapping_mul(9);
        let t = st.s1 << 17u64;
        let s2 = st.s2 ^ st.s0;
        let s3 = st.s3 ^ st.s1;
        let s1 = st.s1 ^ s2;
        let s0 = st.s0 ^ s3;
        self.state = XoState { s0: s0, s1: s1, s2: s2 ^ t, s3: rotate_left(s3, 45) };
        r
    }

    /// Draws a 64-bit number and keeps its low 32 bits.
    pub fn rand(&mut self) -> (r: u32)
        ensures
            r == xo_output(old(self)@) as u32,
            final(self)@ == xo_step(old(self)@),
    {
        let x = self.rand64();
        x as u32
    }

    /// Shuffles `v` in place with rand's Fisher-Yates shuffle driven by this
    /// generator, which moves on by the numbers the shuffle draws.
    pub fn shuffle<T: Copy>(&mut self, v: &mut Vec<T>)
        ensures
            final(v)@.len() == old(v)@.len(),
            forall|k: int|
                #![trigger final(v)@[k]]
                #![trigger shuffle_order(old(self)@, old(v)@.len())[k]]
                0 <= k < old(v)@.len() ==> 0 <= shuffle_order(old(self)@, old(v)@.len())[k] < old(
                    v,
                )@.len() && final(v)@[k] == old(v)@[shuffle_order(old(self)@, old(v)@.len())[k]],
            final(v)@.to_multiset() =~= old(v)@.to_multiset(),
            final(self)@ == state_of_bytes(
                xoshiro_shuffle_state(state_bytes(old(self)@), old(v)@.len()),
            ),
    {
        let seed = state_to_bytes(&self.state);
        let after = xoshiro_shuffle(v, &seed);
        self.state = state_from_bytes(&after);
    }
}

/// One step of the Microsoft C runtime LCG, kept to 31 bits.
pub open spec fn ms_lcg_step(s: u64) -> u64 {
    ((s as int * 214013 + 2531011) % 0x8000_0000) as u64
}

/// One step of the BSD `random` LCG, kept to 31 bits.
pub open spec fn bsd_lcg_step(s: u64) -> u64 {
    ((s as int * 1103515245 + 12345) % 0x8000_0000) as u64
}

/// The state after one draw: the generators alternate, the Microsoft one on
/// even draws.
pub open spec fn lcg_next_state(state: u64, count: u64) -> u64 {
    if count % 2 == 0 {
        ms_lcg_step(state)
    } else {
        bsd_lcg_step(state)
    }
}

/// The value returned by one draw: bits 16..31 of the new state on even
/// draws, the whole 31-bit state on odd draws.
pub open spec fn lcg_output(state: u64, count: u64) -> u64 {
    if count % 2 == 0 {
        ms_lcg_step(state) / 0x1_0000
    } else {
        bsd_lcg_step(state)
    }
}

/// Every number drawn fits in 31 bits, and a number drawn with the
/// Microsoft generator (even draws) fits in 15 bits.
pub proof fn law_lcg_output_range(state: u64, count: u64)
    ensures
        lcg_output(state, count) < 0x8000_0000,
        count % 2 == 0 ==> lcg_output(state, count) < 0x8000,
        lcg_next_state(state, count) < 0x8000_0000,
{
}

/// Reduction of `(a * m) mod 2^64 + c) mod 2^64` modulo `2^31`.
proof fn lemma_wrap_low31(s: u64, m: u64, c: u64)
    ensures
        (((((s as nat * m as nat) % 0x1_0000_0000_0000_0000) + c as nat) % 0x1_0000_0000_0000_0000)
            % 0x8000_0000) == ((s as int * m as int + c as int) % 0x8000_0000),
{
    let big: int = 0x1_0000_0000_0000_0000;
    let small: int = 0x8000_0000;
    let p: int = s as int * m as int;
    assert(big == small * 0x2_0000_0000);
    vstd::arithmetic::div_mod::lemma_mod_mod(p, small, 0x2_0000_0000);
    vstd::arithmetic::div_mod::lemma_mod_mod(p % big + c as int, small, 0x2_0000_0000);
    vstd::arithmetic::div_mod::lemma_add_mod_noop(p % big, c as int, small);
    vstd::arithmetic::div_mod::lemma_add_mod_noop(p, c as int, small);
}

/// The state after `n` draws.
pub open spec fn lcg_advance(st: LcgState, n: nat) -> LcgState
    decreases n,
{
    if n == 0 {
        st
    } else {
        lcg_advance(
            LcgState { value: lcg_next_state(st.value, st.count), count: (st.count + 1) as u64 },
            (n - 1) as nat,
        )
    }
}

/// Drawing once more after `n` draws is drawing `n + 1` times.
pub proof fn lemma_lcg_advance_step(st: LcgState, n: nat)
    ensures
        lcg_advance(st, n + 1) == (LcgState {
            value: lcg_next_state(lcg_advance(st, n).value, lcg_advance(st, n).count),
            count: (lcg_advance(st, n).count + 1) as u64,
        }),
    decreases n,
{
    reveal_with_fuel(lcg_advance, 2);
    if n > 0 {
        lemma_lcg_advance_step(
            LcgState { value: lcg_next_state(st.value, st.count), count: (st.count + 1) as u64 },
            (n - 1) as nat,
        );
    }
}

/// The `n` numbers drawn from the state `st`, in order.
pub open spec fn lcg_outputs(st: LcgState, n: nat) -> Seq<u64>
    decreases n,
{
    if n == 0 {
        Seq::empty()
    } else {
        seq![lcg_output(st.value, st.count)] + lcg_outputs(
            LcgState { value: lcg_next_state(st.value, st.count), count: (st.count + 1) as u64 },
            (n - 1) as nat,
        )
    }
}

/// What is drawn depends on the current value and on the parity of the draw
/// count alone: two generators that agree on both draw the same numbers.
/// So `RandLCG::new()` draws what any generator draws after an even number
/// of draws and `srand(0)`.
pub proof fn law_lcg_draws_follow_value_and_parity(a: LcgState, b: LcgState, n: nat)
    requires
        a.value == b.value,
        a.count % 2 == b.count % 2,
    ensures
        lcg_outputs(a, n) == lcg_outputs(b, n),
    decreases n,
{
    if n > 0 {
        let (x, y) = (a.count, b.count);
        assert(((x + 1) as u64) % 2 == ((y + 1) as u64) % 2) by (bit_vector)
            requires
                x % 2 == y % 2,
        ;
        assert(lcg_next_state(a.value, a.count) == lcg_next_state(b.value, b.count));
        assert(lcg_output(a.value, a.count) == lcg_output(b.value, b.count));
        let na = LcgState { value: lcg_next_state(a.value, a.count), count: (a.count + 1) as u64 };
        let nb = LcgState { value: lcg_next_state(b.value, b.count), count: (b.count + 1) as u64 };
        law_lcg_draws_follow_value_and_parity(na, nb, (n - 1) as nat);
    }
}

/// `s` with the elements at `a` and `b` exchanged.
pub open spec fn seq_swap<T>(s: Seq<T>, a: int, b: int) -> Seq<T> {
    s.update(a, s[b]).update(b, s[a])
}

/// What `RandLCG::shuffle` does from position `i` on: for each position `i`
/// up to the one before the last, draw a number `r` and swap the elements at
/// `r % len` and `i`.
pub open spec fn lcg_shuffle_from<T>(s: Seq<T>, st: LcgState, i: nat) -> Seq<T>
    decreases s.len() - i,
{
    if i + 1 >= s.len() {
        s
    } else {
        let j = lcg_output(st.value, st.count) as int % s.len() as int;
        lcg_shuffle_from(
            seq_swap(s, j, i as int),
            LcgState { value: lcg_next_state(st.value, st.count), count: (st.count + 1) as u64 },
            i + 1,
        )
    }
}

/// Exchanging two elements keeps the multiset of elements.
pub proof fn lemma_swap_to_multiset<T>(s: Seq<T>, a: int, b: int)
    requires
        0 <= a < s.len(),
        0 <= b < s.len(),
    ensures
        seq_swap(s, a, b).to_multiset() =~= s.to_multiset(),
        seq_swap(s, a, b).len() == s.len(),
{
    let t = s.update(a, s[b]);
    vstd::seq_lib::to_multiset_update(s, a, s[b]);
    vstd::seq_lib::to_multiset_update(t, b, s[a]);
    assert(t[b] == s[b]);
    broadcast use vstd::multiset::group_multiset_axioms, vstd::seq_lib::group_to_multiset_ensures;
    assert(s.contains(s[a]));
    assert(s.to_multiset().count(s[a]) > 0);
    assert(t.update(b, s[a]).to_multiset() =~= s.to_multiset());
}

/// A shuffle only rearranges: the multiset of elements is kept.
pub proof fn lemma_lcg_shuffle_permutes<T>(s: Seq<T>, st: LcgState, i: nat)
    ensures
        lcg_shuffle_from(s, st, i).to_multiset() =~= s.to_multiset(),
        lcg_shuffle_from(s, st, i).len() == s.len(),
    decreases s.len() - i,
{
    if i + 1 < s.len() {
        let j = lcg_output(st.value, st.count) as int % s.len() as int;
        lemma_swap_to_multiset(s, j, i as int);
        lemma_lcg_shuffle_permutes(
            seq_swap(s, j, i as int),
            LcgState { value: lcg_next_state(st.value, st.count), count: (st.count + 1) as u64 },
            i + 1,
        );
    }
}

/// `s` after the first `k` of the exchanges `js`, applied in order: the
/// `i`-th exchange swaps position `i` with position `js[i]`.
pub open spec fn swaps_applied<T>(s: Seq<T>, js: Seq<int>, k: nat) -> Seq<T>
    decreases k,
{
    if k == 0 {
        s
    } else {
        seq_swap(swaps_applied(s, js, (k - 1) as nat), js[k - 1], k - 1)
    }
}

/// Exchanges keep the length.
proof fn lemma_swaps_applied_len<T>(s: Seq<T>, js: Seq<int>, k: nat)
    requires
        k <= s.len(),
        forall|i: int| 0 <= i < k ==> 0 <= #[trigger] js[i] < s.len(),
    ensures
        swaps_applied(s, js, k).len() == s.len(),
    decreases k,
{
    if k > 0 {
        lemma_swaps_applied_len(s, js, (k - 1) as nat);
    }
}

/// From the `k`-th exchange on, the shuffle goes on as the exchanges `js`
/// do, when `js[i]` is the number drawn after `i` draws, modulo the length.
proof fn lemma_lcg_shuffle_swaps_from<T>(s: Seq<T>, st: LcgState, js: Seq<int>, k: nat)
    requires
        s.len() >= 2,
        k <= s.len() - 1,
        js == Seq::new(
            (s.len() - 1) as nat,
            |i: int|
                lcg_output(lcg_advance(st, i as nat).value, lcg_advance(st, i as nat).count) as int
                    % s.len() as int,
        ),
    ensures
        lcg_shuffle_from(swaps_applied(s, js, k), lcg_advance(st, k), k) == swaps_applied(
            s,
            js,
            (s.len() - 1) as nat,
        ),
    decreases s.len() - k,
{
    let n = (s.len() - 1) as nat;
    assert forall|i: int| 0 <= i < n implies 0 <= #[trigger] js[i] < s.len() by {}
    let t = swaps_applied(s, js, k);
    lemma_swaps_applied_len(s, js, k);
    if k < n {
        let sk = lcg_advance(st, k);
        lemma_lcg_advance_step(st, k);
        assert(js[k as int] == lcg_output(sk.value, sk.count) as int % t.len() as int);
        assert(swaps_applied(s, js, k + 1) == seq_swap(t, js[k as int], k as int));
        lemma_lcg_shuffle_swaps_from(s, st, js, k + 1);
    }
}

/// What `RandLCG::shuffle` does to `s` from the state `st`: for each
/// position `i` from the first up to the one before the last, in order, it
/// swaps position `i` with position `r % s.len()`, where `r` is the number
/// that the generator draws after `i` draws from `st` (the whole length, not
/// the positions from `i` on). A slice of fewer than two
/// elements is left as it is.
pub proof fn law_lcg_shuffle_swaps_with_draws<T>(s: Seq<T>, st: LcgState)
    ensures
        s.len() < 2 ==> lcg_shuffle_from(s, st, 0) == s,
        s.len() >= 2 ==> lcg_shuffle_from(s, st, 0) == swaps_applied(
            s,
            Seq::new(
                (s.len() - 1) as nat,
                |i: int|
                lcg_output(lcg_advance(st, i as nat).value, lcg_advance(st, i as nat).count) as int
                    % s.len() as int,
            ),
            (s.len() - 1) as nat,
        ),
{
    if s.len() >= 2 {
        let n = (s.len() - 1) as nat;
        let js = Seq::new(
            n,
            |i: int|
                lcg_output(lcg_advance(st, i as nat).value, lcg_advance(st, i as nat).count) as int
                    % s.len() as int,
        );
        assert forall|i: int| 0 <= i < n implies 0 <= #[trigger] js[i] < s.len() by {}
        lemma_lcg_shuffle_swaps_from(s, st, js, 0);
        lemma_swaps_applied_len(s, js, n);
    }
}

pub struct RandLCG {
    random_next: u64,
    count: u64,
}

impl Default for RandLCG {
    fn default() -> (r: Self)
        ensures
            r@ == (LcgState { value: 0, count: 0 }),
    {
        RandLCG::new()
    }
}

/// Abstract state of an LCG generator: its current value and how many
/// numbers it has drawn.
pub struct LcgState {
    pub value: u64,
    pub count: u64,
}

impl View for RandLCG {
    type V = LcgState;

    closed spec fn view(&self) -> LcgState {
        LcgState { value: self.random_next, count: self.count }
    }
}

impl RandLCG {
    pub fn new() -> (r: Self)
        ensures
            r@ == (LcgState { value: 0, count: 0 }),
    {
        RandLCG { random_next: 0, count: 0 }
    }

    /// Sets the seed; the draw counter is kept.
    pub fn srand(&mut self, seed: u64)
        ensures
            final(self)@ == (LcgState { value: seed, count: old(self)@.count }),
    {
        self.random_next = seed;
    }

    /// Draws the next number.
    pub fn rand(&mut self) -> (r: u64)
        requires
            old(self)@.count < u64::MAX,
        ensures
            r == lcg_output(old(self)@.value, old(self)@.count),
            final(self)@ == (LcgState {
                value: lcg_next_state(old(self)@.value, old(self)@.count),
                count: (old(self)@.count + 1) as u64,
            }),
    {
        let s = self.random_next;
        let ret;
        if self.count % 2 == 0 {
            let w = s.wrapping_mul(214013).wrapping_add(2531011);
            let n = w & 0x7FFF_FFFF;
            proof {
                assert(w & 0x7FFF_FFFF == w % 0x8000_0000) by (bit_vector);
                lemma_wrap_low31(s, 214013, 2531011);
            }
            self.random_next = n;
            ret = (n >> 16) & 0x7FFF;
            proof {
                assert(n < 0x8000_0000 ==> (n >> 16) & 0x7FFF == n / 0x1_0000) by (bit_vector);
            }
        } else {
            let w = s.wrapping_mul(1103515245).wrapping_add(12345);
            let n = w & 0x7FFF_FFFF;
            proof {
                assert(w & 0x7FFF_FFFF == w % 0x8000_0000) by (bit_vector);
                lemma_wrap_low31(s, 1103515245, 12345);
            }
            self.random_next = n;
            ret = n;
        }
        self.count = self.count + 1;
        ret
    }

    /// Shuffles `v` in place: for each position `i` but the last, swaps the
    /// element at `i` with the one at `rand() % v.len()`.
    pub fn shuffle<T: Copy>(&mut self, v: &mut [T])
        requires
            old(v)@.len() < 2 || old(self)@.count + old(v)@.len() - 1 <= u64::MAX,
        ensures
            final(v)@ == lcg_shuffle_from(old(v)@, old(self)@, 0),
            final(v)@.to_multiset() =~= old(v)@.to_multiset(),
            final(self)@ == (if old(v)@.len() < 2 {
                old(self)@
            } else {
                lcg_advance(old(self)@, (old(v)@.len() - 1) as nat)
            }),
    {
        proof {
            lemma_lcg_shuffle_permutes(v@, self@, 0);
        }
        let vl = v.len();
        if vl < 2 {
            return;
        }
        let ghost s0 = v@;
        let ghost st0 = self@;
        let mut i: usize = 0;
        while i < vl - 1
            invariant
                vl == v@.len(),
                vl >= 2,
                0 <= i <= vl - 1,
                v@.len() == s0.len(),
                lcg_shuffle_from(v@, self@, i as nat) == lcg_shuffle_from(s0, st0, 0),
                self@ == lcg_advance(st0, i as nat),
                self@.count == st0.count + i,
                st0.count + vl - 1 <= u64::MAX,
            decreases vl - i,
        {
            proof {
                lemma_lcg_advance_step(st0, i as nat);
            }
            let ghost prev = v@;
            let r = self.rand();
            let j = (r % (vl as u64)) as usize;
            let a = v[j];
            let b = v[i];
            v[j] = b;
            v[i] = a;
            assert(v@ =~= seq_swap(prev, j as int, i as int));
            i = i + 1;
        }
    }
}

} // verus!
