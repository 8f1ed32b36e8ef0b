//! The buffer names of an expression. A name is the letter `b` followed by
//! decimal digits, as many as follow; it names the buffer with that number. An
//! expression must name the buffers 0 up to some last one, each at least once
//! and each as the number is plainly written, without leading zeros.

use vstd::prelude::*;
use vstd::relations::injective_on;
use vstd::set_lib::{lemma_int_range, lemma_len_subset, lemma_map_size, set_int_range};
use crate::error::Violation;

verus! {

/// The letter that starts a buffer name.
pub const LETTER_B: u8 = 98;

/// The digit `0`.
pub const DIGIT_ZERO: u8 = 48;

/// The digit `9`.
pub const DIGIT_NINE: u8 = 57;

/// Whether a byte is a decimal digit.
pub open spec fn is_digit(byte: u8) -> bool {
    DIGIT_ZERO <= byte <= DIGIT_NINE
}

/// Whether a buffer name starts at position `i`.
pub open spec fn name_at(text: Seq<u8>, i: int) -> bool {
    0 <= i && i + 1 < text.len() && text[i] == LETTER_B && is_digit(text[i + 1])
}

/// Where the run of digits that starts at `from` ends: the first position at or
/// after `from` that holds no digit.
pub open spec fn digits_end(text: Seq<u8>, from: int) -> int
    decreases text.len() - from,
{
    if 0 <= from < text.len() && is_digit(text[from]) {
        digits_end(text, from + 1)
    } else {
        from
    }
}

/// The number that the digits from `from` up to `to` write in decimal.
pub open spec fn number(text: Seq<u8>, from: int, to: int) -> nat
    decreases to - from,
{
    if to <= from {
        0
    } else {
        10 * number(text, from, to - 1) + (text[to - 1] - DIGIT_ZERO) as nat
    }
}

/// The number of the buffer named at `i`.
pub open spec fn index_at(text: Seq<u8>, i: int) -> nat {
    number(text, i + 1, digits_end(text, i + 1))
}

/// Whether the name at `i` is written plainly: a single `0`, or digits that do
/// not start with `0`.
pub open spec fn plain_at(text: Seq<u8>, i: int) -> bool {
    text[i + 1] != DIGIT_ZERO || digits_end(text, i + 1) == i + 2
}

/// Whether a plain name of buffer `k` stands at position `i`.
pub open spec fn names_at(text: Seq<u8>, i: int, k: int) -> bool {
    name_at(text, i) && plain_at(text, i) && index_at(text, i) == k
}

/// Whether the text names buffer `k` somewhere.
pub open spec fn names(text: Seq<u8>, k: int) -> bool {
    exists|i: int| #[trigger] names_at(text, i, k)
}

/// Whether the names in the text are exactly those of the buffers 0 to `n - 1`:
/// every name is plain and below `n`, and every buffer below `n` is named.
pub open spec fn names_exactly(text: Seq<u8>, n: nat) -> bool {
    &&& forall|i: int| #[trigger]
        name_at(text, i) ==> plain_at(text, i) && index_at(text, i) < n
    &&& forall|k: int| 0 <= k < n ==> #[trigger] names(text, k)
}

/// The run of digits that starts at `from` holds digits only, and ends within
/// the text on a byte that is no digit.
pub proof fn lemma_digits_end(text: Seq<u8>, from: int)
    requires
        0 <= from <= text.len(),
    ensures
        from <= digits_end(text, from) <= text.len(),
        forall|j: int| from <= j < digits_end(text, from) ==> is_digit(#[trigger] text[j]),
        digits_end(text, from) < text.len() ==> !is_digit(text[digits_end(text, from)]),
    decreases text.len() - from,
{
    if from < text.len() && is_digit(text[from]) {
        lemma_digits_end(text, from + 1);
    }
}

/// Within a run of digits, the run ends where it ends from its start.
pub proof fn lemma_digits_end_from_within(text: Seq<u8>, from: int, j: int)
    requires
        0 <= from <= j <= text.len(),
        forall|p: int| from <= p < j ==> is_digit(#[trigger] text[p]),
    ensures
        digits_end(text, from) == digits_end(text, j),
    decreases j - from,
{
    if from < j {
        lemma_digits_end_from_within(text, from + 1, j);
    }
}

/// More digits never write a smaller number.
pub proof fn lemma_number_grows(text: Seq<u8>, from: int, mid: int, to: int)
    requires
        0 <= from <= mid <= to <= text.len(),
        forall|p: int| from <= p < to ==> is_digit(#[trigger] text[p]),
    ensures
        number(text, from, mid) <= number(text, from, to),
    decreases to - mid,
{
    if mid < to {
        lemma_number_grows(text, from, mid, to - 1);
        assert(is_digit(text[to - 1]));
    }
}

/// A text cannot name more buffers than it has bytes.
pub proof fn lemma_names_fit(text: Seq<u8>, n: nat)
    requires
        names_exactly(text, n),
    ensures
        n <= text.len(),
{
    let place = |k: int| choose|i: int| #[trigger] names_at(text, i, k);
    let below = set_int_range(0, n as int);
    let within = set_int_range(0, text.len() as int);
    lemma_int_range(0, n as int);
    lemma_int_range(0, text.len() as int);
    assert forall|k: int| below.contains(k) implies names_at(text, #[trigger] place(k), k) by {
        assert(names(text, k));
    }
    assert(injective_on(place, below)) by {
        assert forall|k1: int, k2: int|
            below.contains(k1) && below.contains(k2) && #[trigger] place(k1) == #[trigger] place(
                k2,
            ) implies k1 == k2 by {
            assert(names_at(text, place(k1), k1));
            assert(names_at(text, place(k2), k2));
        }
    }
    let places = below.map(place);
    lemma_map_size(below, places, place);
    assert(places.subset_of(within)) by {
        assert forall|i: int| places.contains(i) implies within.contains(i) by {
            let k = choose|k: int| below.contains(k) && place(k) == i;
            assert(names_at(text, place(k), k));
        }
    }
    lemma_len_subset(places, within);
}

/// The names in a text are those of at most one range of buffers.
pub proof fn lemma_names_exactly_one_count(text: Seq<u8>, n: nat, m: nat)
    requires
        names_exactly(text, n),
        names_exactly(text, m),
    ensures
        n == m,
{
    if n < m {
        assert(names(text, n as int));
        let i = choose|i: int| names_at(text, i, n as int);
        assert(name_at(text, i));
    }
    if m < n {
        assert(names(text, m as int));
        let i = choose|i: int| names_at(text, i, m as int);
        assert(name_at(text, i));
    }
}

/// Whether a byte is a decimal digit.
pub fn digit(byte: u8) -> (r: bool)
    ensures
        r == is_digit(byte),
{
    DIGIT_ZERO <= byte && byte <= DIGIT_NINE
}

/// Counts the buffers that the text names. The count is that of `names_exactly`;
/// where the names are not those of the buffers 0 up to some last one, plainly
/// written, the text is refused.
#[verifier::loop_isolation(false)]
pub fn count_buffers(text: &[u8]) -> (r: Result<usize, Violation>)
    ensures
        match r {
            Ok(n) => names_exactly(text@, n as nat),
            Err(v) => v == Violation::BufferNames && forall|n: nat| !names_exactly(text@, n),
        },
{
    let len: usize = text.len();
    let mut seen: Vec<bool> = Vec::new();
    let mut filled: usize = 0;
    while filled < len
        invariant
            filled <= len,
            seen@.len() == filled,
            forall|k: int| 0 <= k < filled ==> !seen@[k],
        decreases len - filled,
    {
        seen.push(false);
        filled = filled + 1;
    }
    let mut i: usize = 0;
    while i < len
        invariant
            i <= len,
            seen@.len() == len,
            forall|p: int|
                0 <= p < i && #[trigger] name_at(text@, p) ==> plain_at(text@, p) && index_at(
                    text@,
                    p,
                ) < len && seen@[index_at(text@, p) as int],
            forall|k: int| 0 <= k < len && #[trigger] seen@[k] ==> names(text@, k),
        decreases len - i,
    {
        if text[i] == LETTER_B && i + 1 < len && digit(text[i + 1]) {
            assert(name_at(text@, i as int));
            let first: u8 = text[i + 1];
            let mut j: usize = i + 1;
            let mut value: usize = 0;
            while j < len && digit(text[j])
                invariant
                    i + 1 <= j <= len,
                    forall|p: int| i + 1 <= p < j ==> is_digit(#[trigger] text@[p]),
                    value == number(text@, i + 1, j as int),
                    j > i + 1 ==> value < len,
                    j > i + 2 ==> first != DIGIT_ZERO,
                decreases len - j,
            {
                proof {
                    lemma_digits_end(text@, i + 1);
                    lemma_digits_end_from_within(text@, i + 1, j + 1);
                    lemma_digits_end(text@, j + 1);
                }
                if j == i + 2 && first == DIGIT_ZERO {
                    assert(!plain_at(text@, i as int));
                    return Err(Violation::BufferNames);
                }
                let d: u8 = text[j] - DIGIT_ZERO;
                let next: u128 = 10 * (value as u128) + (d as u128);
                if next >= len as u128 {
                    proof {
                        lemma_number_grows(text@, i + 1, j + 1, digits_end(text@, i + 1));
                        assert forall|n: nat| !names_exactly(text@, n) by {
                            if names_exactly(text@, n) {
                                lemma_names_fit(text@, n);
                            }
                        }
                    }
                    return Err(Violation::BufferNames);
                }
                value = next as usize;
                j = j + 1;
            }
            proof {
                lemma_digits_end_from_within(text@, i + 1, j as int);
                assert(digits_end(text@, j as int) == j);
                assert(names_at(text@, i as int, value as int));
            }
            seen.set(value, true);
        }
        i = i + 1;
    }
    let mut n: usize = 0;
    while n < len && seen[n]
        invariant
            n <= len,
            forall|k: int| 0 <= k < n ==> seen@[k],
        decreases len - n,
    {
        n = n + 1;
    }
    let mut k: usize = n;
    while k < len
        invariant
            n <= k <= len,
            forall|q: int| n <= q < k ==> !seen@[q],
        decreases len - k,
    {
        if seen[k] {
            proof {
                assert(names(text@, k as int));
                let at = choose|at: int| names_at(text@, at, k as int);
                assert(name_at(text@, at));
                assert forall|m: nat| !names_exactly(text@, m) by {
                    if names_exactly(text@, m) {
                        assert(names(text@, n as int));
                        let missing = choose|p: int| names_at(text@, p, n as int);
                        assert(name_at(text@, missing));
                    }
                }
            }
            return Err(Violation::BufferNames);
        }
        k = k + 1;
    }
    proof {
        assert forall|p: int| #[trigger] name_at(text@, p) implies plain_at(text@, p) && index_at(
            text@,
            p,
        ) < n by {
            assert(seen@[index_at(text@, p) as int]);
        }
        assert forall|q: int| 0 <= q < n implies #[trigger] names(text@, q) by {
            assert(seen@[q]);
        }
    }
    Ok(n)
}

} // verus!
