//! URL-safe random tokens.

use vstd::prelude::*;
use std::collections::hash_map::{DefaultHasher, RandomState};
use std::hash::{BuildHasher, Hasher};
use std::time::{Duration, SystemTime};
use crate::text::{decimal, digit_char, is_digit, lemma_decimal_digits, u64_to_decimal};

verus! {

/// One step of the xorshift generator that drives the token characters.
pub open spec fn xorshift(s: u64) -> u64 {
    let a = s ^ (s << 13u64);
    let b = a ^ (a >> 7u64);
    b ^ (b << 17u64)
}

/// The generator state after `k` steps from `seed`.
pub open spec fn seed_after(seed: u64, k: nat) -> u64
    decreases k,
{
    if k == 0 {
        seed
    } else {
        xorshift(seed_after(seed, (k - 1) as nat))
    }
}

/// The ASCII code of the character drawn for `i < 64`: `A`-`Z`, `a`-`z`,
/// `0`-`9`, `-`, `_`.
pub open spec fn token_code(i: int) -> int {
    if i < 26 {
        65 + i
    } else if i < 52 {
        97 + (i - 26)
    } else if i < 62 {
        48 + (i - 52)
    } else if i == 62 {
        45
    } else {
        95
    }
}

/// The token that `len` draws from `seed` give: each drawn character is
/// written as the decimal number of its ASCII code (as `u8::to_string`
/// writes it), one after another; draw `k` (from 1) uses the generator state
/// after `k` steps, taken modulo 64.
pub open spec fn token_of_seed(seed: u64, len: nat) -> Seq<char>
    decreases len,
{
    if len == 0 {
        Seq::empty()
    } else {
        token_of_seed(seed, (len - 1) as nat) + decimal(token_code((seed_after(seed, len) % 64) as int) as nat)
    }
}

/// Whether `c` is an ASCII digit.
pub open spec fn is_ascii_digit(c: char) -> bool {
    '0' <= c && c <= '9'
}

fn code_of(i: u64) -> (r: u64)
    requires
        i < 64,
    ensures
        r == token_code(i as int),
{
    if i < 26 {
        65 + i
    } else if i < 52 {
        97 + (i - 26)
    } else if i < 62 {
        48 + (i - 52)
    } else if i == 62 {
        45
    } else {
        95
    }
}

/// The token that `len` draws from `seed` give.
pub fn token_from_seed(seed: u64, len: usize) -> (r: String)
    ensures
        r@ == token_of_seed(seed, len as nat),
{
    let mut state = seed;
    let mut out = String::new();
    let mut k: usize = 0;
    while k < len
        invariant
            k <= len,
            state == seed_after(seed, k as nat),
            out@ == token_of_seed(seed, k as nat),
        decreases len - k,
    {
        state ^= state << 13u64;
        state ^= state >> 7u64;
        state ^= state << 17u64;
        assert(state == seed_after(seed, (k + 1) as nat));
        let code = code_of(state % 64);
        let piece = u64_to_decimal(code);
        out.append(piece.as_str());
        k += 1;
    }
    out
}

proof fn lemma_code_decimal(n: nat)
    requires
        45 <= n <= 122,
    ensures
        2 <= decimal(n).len() <= 3,
        forall|j: int| 0 <= j < decimal(n).len() ==> is_ascii_digit(#[trigger] decimal(n)[j]),
{
    lemma_decimal_digits(n);
    assert(decimal(n / 10).len() >= 1) by {
        lemma_decimal_digits(n / 10);
    }
    if n < 100 {
        assert(decimal(n / 10).len() == 1);
    } else {
        assert(decimal(n / 100).len() == 1);
        assert(decimal(n / 10) == decimal(n / 10 / 10).push(digit_char((n / 10 % 10) as int)));
        assert(n / 10 / 10 == n / 100);
    }
    assert forall|j: int| 0 <= j < decimal(n).len() implies is_ascii_digit(#[trigger] decimal(n)[j]) by {
        assert(is_digit(decimal(n)[j]));
    }
}

/// A token is made of ASCII digits only, each draw writing two or three of
/// them, so it is safe in a URL as it is.
pub proof fn law_token_url_safe(seed: u64, len: nat)
    ensures
        2 * len <= token_of_seed(seed, len).len() <= 3 * len,
        forall|k: int| 0 <= k < token_of_seed(seed, len).len() ==> is_ascii_digit(#[trigger] token_of_seed(seed, len)[k]),
    decreases len,
{
    if len > 0 {
        law_token_url_safe(seed, (len - 1) as nat);
        let prev = token_of_seed(seed, (len - 1) as nat);
        let i = (seed_after(seed, len) % 64) as int;
        let piece = decimal(token_code(i) as nat);
        lemma_code_decimal(token_code(i) as nat);
        let t = token_of_seed(seed, len);
        assert(t == prev + piece);
        assert forall|k: int| 0 <= k < t.len() implies is_ascii_digit(#[trigger] t[k]) by {
            if k < prev.len() {
                assert(t[k] == prev[k]);
            } else {
                assert(t[k] == piece[k - prev.len()]);
            }
        }
    }
}

#[verifier::external_type_specification]
#[verifier::external_body]
pub struct ExSystemTime(std::time::SystemTime);

/// Calls `SystemTime::now`: the current time of the system clock. Nothing is
/// stated of it.
#[verifier::external_body]
fn system_now() -> SystemTime {
    SystemTime::now()
}

/// Calls `SystemTime::duration_since` with the Unix epoch; a time before the
/// epoch (the call's error) gives `None`. Nothing is stated of the duration.
#[verifier::external_body]
fn since_epoch(t: &SystemTime) -> Option<Duration> {
    match t.duration_since(std::time::UNIX_EPOCH) {
        Ok(d) => Some(d),
        Err(_) => None,
    }
}

/// Calls `Duration::as_nanos`: the whole duration in nanoseconds. Nothing is
/// stated of it, as the duration is opaque here.
#[verifier::external_body]
fn as_nanos(d: &Duration) -> u128 {
    d.as_nanos()
}

/// Calls `RandomState::new`, which draws fresh random keys. Nothing is
/// stated of them.
#[verifier::external_body]
fn random_state() -> RandomState {
    RandomState::new()
}

/// Calls `BuildHasher::build_hasher` of a `RandomState`: a hasher keyed with
/// its random keys. Nothing is stated of it.
#[verifier::external_body]
fn keyed_hasher(state: &RandomState) -> DefaultHasher {
    state.build_hasher()
}

/// Calls `Hasher::write_u64`, which feeds `v` to the hasher. Nothing is
/// stated of the hasher's new state.
#[verifier::external_body]
fn feed_u64(hasher: &mut DefaultHasher, v: u64) {
    hasher.write_u64(v)
}

/// The seed material taken from a clock reading: the nanoseconds since the
/// Unix epoch (`None` for a clock set before the epoch) cut to their low 64
/// bits, as `as u64` cuts them; 0 when there is no reading.
fn clock_nanos(since_epoch_nanos: Option<u128>) -> (r: u64)
    ensures
        r == (match since_epoch_nanos {
            Some(n) => n % 0x1_0000_0000_0000_0000,
            None => 0,
        }),
{
    match since_epoch_nanos {
        Some(n) => {
            let r = #[verifier::truncate] (n as u64);
            assert(r == n % 0x1_0000_0000_0000_0000) by (bit_vector)
                requires
                    r == #[verifier::truncate] (n as u64),
            ;
            r
        },
        None => 0,
    }
}

/// A random token of `len` draws: ASCII digits only, two or three per draw.
pub fn url_safe_token(len: usize) -> (r: String)
    ensures
        2 * len <= r@.len() <= 3 * len,
        forall|k: int| 0 <= k < r@.len() ==> is_ascii_digit(#[trigger] r@[k]),
        exists|seed: u64| r@ == token_of_seed(seed, len as nat),
{
    let state = random_state();
    let mut hasher = keyed_hasher(&state);
    let reading = match since_epoch(&system_now()) {
        Some(d) => Some(as_nanos(&d)),
        None => None,
    };
    feed_u64(&mut hasher, clock_nanos(reading));
    let seed = hasher.finish();
    let r = token_from_seed(seed, len);
    proof {
        law_token_url_safe(seed, len as nat);
    }
    r
}

} // verus!
