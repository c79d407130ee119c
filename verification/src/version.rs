//! Dotted-numeric version comparison.
//!
//! A version text is cut at every `.`; each piece that reads as a decimal
//! number is kept, every other piece is dropped. Two versions are compared
//! piece by piece, the shorter one continued with zeros.

use vstd::prelude::*;
use crate::text::{chars_of, split};

verus! {

/// `c` is one of the ten ASCII digits.
pub open spec fn is_digit(c: char) -> bool {
    '0' <= c && c <= '9'
}

/// The number that the digit `c` stands for.
pub open spec fn digit_value(c: char) -> nat {
    (c as int - '0' as int) as nat
}

/// Every character of `s` is an ASCII digit.
pub open spec fn all_digits(s: Seq<char>) -> bool {
    forall|i: int| 0 <= i < s.len() ==> is_digit(#[trigger] s[i])
}

/// The number that a run of decimal digits denotes.
pub open spec fn decimal_value(digits: Seq<char>) -> nat
    decreases digits.len(),
{
    if digits.len() == 0 {
        0
    } else {
        decimal_value(digits.drop_last()) * 10 + digit_value(digits.last())
    }
}

/// The digits of a piece: the piece itself, without one leading `+`.
pub open spec fn unsigned_part(piece: Seq<char>) -> Seq<char> {
    if piece.len() > 0 && piece[0] == '+' {
        piece.subrange(1, piece.len() as int)
    } else {
        piece
    }
}

/// The number a piece stands for: an optional `+`, then one or more decimal
/// digits whose value fits in 32 bits. Anything else stands for no number.
pub open spec fn parse_segment(piece: Seq<char>) -> Option<nat> {
    let digits = unsigned_part(piece);
    if digits.len() > 0 && all_digits(digits) && decimal_value(digits) <= u32::MAX {
        Some(decimal_value(digits))
    } else {
        None
    }
}

/// The numbers of those pieces that stand for one, in order.
pub open spec fn parsed_segments(pieces: Seq<Seq<char>>) -> Seq<nat>
    decreases pieces.len(),
{
    if pieces.len() == 0 {
        Seq::<nat>::empty()
    } else {
        let before = parsed_segments(pieces.drop_last());
        match parse_segment(pieces.last()) {
            Some(n) => before.push(n),
            None => before,
        }
    }
}

/// The segment sequence of a version text.
pub open spec fn parse_version(s: Seq<char>) -> Seq<nat> {
    parsed_segments(split(s, '.'))
}

/// Segment `i` of a version, zero beyond its end.
pub open spec fn segment_at(v: Seq<nat>, i: int) -> nat {
    if 0 <= i < v.len() {
        v[i]
    } else {
        0
    }
}

/// `current` and `latest` agree on every segment before position `i`.
pub open spec fn agree_before(current: Seq<nat>, latest: Seq<nat>, i: int) -> bool {
    forall|j: int| 0 <= j < i ==> segment_at(current, j) == segment_at(latest, j)
}

/// `latest` is strictly greater than `current`: at the first position where
/// they differ, `latest` holds the greater number.
pub open spec fn is_newer(current: Seq<nat>, latest: Seq<nat>) -> bool {
    exists|i: int|
        0 <= i && agree_before(current, latest, i) && #[trigger] segment_at(latest, i)
            > segment_at(current, i)
}

/// `v` continued with zeros up to length `n` (unchanged if already that long).
pub open spec fn zero_padded(v: Seq<nat>, n: nat) -> Seq<nat> {
    if v.len() >= n {
        v
    } else {
        v + Seq::new((n - v.len()) as nat, |i: int| 0nat)
    }
}

/// The numbers held in a vector of segments.
pub open spec fn segments_of(v: Seq<u32>) -> Seq<nat> {
    Seq::new(v.len(), |i: int| v[i] as nat)
}

/// Padding with zeros changes no segment.
pub proof fn lemma_padding_keeps_segments(v: Seq<nat>, n: nat, i: int)
    ensures
        segment_at(zero_padded(v, n), i) == segment_at(v, i),
{
}

/// Comparison does not see zero padding: continuing either version with
/// zeros, to any lengths, gives the same answer.
pub proof fn lemma_is_newer_ignores_padding(current: Seq<nat>, latest: Seq<nat>, n: nat, m: nat)
    ensures
        is_newer(current, latest) == is_newer(zero_padded(current, n), zero_padded(latest, m)),
{
    let pc = zero_padded(current, n);
    let pl = zero_padded(latest, m);
    assert forall|i: int| segment_at(pc, i) == segment_at(current, i) by {
        lemma_padding_keeps_segments(current, n, i);
    }
    assert forall|i: int| segment_at(pl, i) == segment_at(latest, i) by {
        lemma_padding_keeps_segments(latest, m, i);
    }
    if is_newer(current, latest) {
        let i = choose|i: int|
            0 <= i && agree_before(current, latest, i) && #[trigger] segment_at(latest, i)
                > segment_at(current, i);
        assert(agree_before(pc, pl, i));
        assert(segment_at(pl, i) > segment_at(pc, i));
    }
    if is_newer(pc, pl) {
        let i = choose|i: int|
            0 <= i && agree_before(pc, pl, i) && #[trigger] segment_at(pl, i) > segment_at(pc, i);
        assert(agree_before(current, latest, i));
        assert(segment_at(latest, i) > segment_at(current, i));
    }
}

/// Padded to a common length, two versions compare as they do unpadded.
pub proof fn lemma_is_newer_equal_length(current: Seq<nat>, latest: Seq<nat>)
    ensures
        ({
            let n = if current.len() >= latest.len() {
                current.len()
            } else {
                latest.len()
            };
            &&& zero_padded(current, n).len() == n
            &&& zero_padded(latest, n).len() == n
            &&& is_newer(current, latest) == is_newer(
                zero_padded(current, n),
                zero_padded(latest, n),
            )
        }),
{
    let n = if current.len() >= latest.len() {
        current.len()
    } else {
        latest.len()
    };
    lemma_is_newer_ignores_padding(current, latest, n, n);
}

/// No version is newer than itself.
pub proof fn lemma_is_newer_irreflexive(v: Seq<nat>)
    ensures
        !is_newer(v, v),
{
}

/// If `latest` is newer than `current`, `current` is not newer than `latest`.
pub proof fn lemma_is_newer_asymmetric(current: Seq<nat>, latest: Seq<nat>)
    requires
        is_newer(current, latest),
    ensures
        !is_newer(latest, current),
{
    let i = choose|i: int|
        0 <= i && agree_before(current, latest, i) && #[trigger] segment_at(latest, i)
            > segment_at(current, i);
    if is_newer(latest, current) {
        let k = choose|k: int|
            0 <= k && agree_before(latest, current, k) && #[trigger] segment_at(current, k)
                > segment_at(latest, k);
        if k < i {
            assert(segment_at(current, k) == segment_at(latest, k));
        } else if i < k {
            assert(segment_at(latest, i) == segment_at(current, i));
        }
    }
}

/// Newer than newer is newer.
pub proof fn lemma_is_newer_transitive(oldest: Seq<nat>, middle: Seq<nat>, latest: Seq<nat>)
    requires
        is_newer(oldest, middle),
        is_newer(middle, latest),
    ensures
        is_newer(oldest, latest),
{
    let i = choose|i: int|
        0 <= i && agree_before(oldest, middle, i) && #[trigger] segment_at(middle, i)
            > segment_at(oldest, i);
    let k = choose|k: int|
        0 <= k && agree_before(middle, latest, k) && #[trigger] segment_at(latest, k)
            > segment_at(middle, k);
    let m = if i <= k {
        i
    } else {
        k
    };
    assert(agree_before(oldest, latest, m)) by {
        assert forall|j: int| 0 <= j < m implies segment_at(oldest, j) == segment_at(
            latest,
            j,
        ) by {
            assert(segment_at(oldest, j) == segment_at(middle, j));
            assert(segment_at(middle, j) == segment_at(latest, j));
        }
    }
    if i < k {
        assert(segment_at(middle, i) == segment_at(latest, i));
    } else if k < i {
        assert(segment_at(oldest, k) == segment_at(middle, k));
    }
    assert(segment_at(latest, m) > segment_at(oldest, m));
}

proof fn lemma_decided_or_agreeing(a: Seq<nat>, b: Seq<nat>, n: nat)
    ensures
        is_newer(a, b) || is_newer(b, a) || agree_before(a, b, n as int),
    decreases n,
{
    if n > 0 {
        lemma_decided_or_agreeing(a, b, (n - 1) as nat);
        if agree_before(a, b, n - 1) {
            assert(agree_before(b, a, n - 1));
            if segment_at(b, n - 1) > segment_at(a, n - 1) {
                assert(is_newer(a, b));
            } else if segment_at(a, n - 1) > segment_at(b, n - 1) {
                assert(is_newer(b, a));
            }
        }
    }
}

/// Any two versions compare: one is newer than the other, or they agree
/// on every segment.
pub proof fn lemma_versions_comparable(a: Seq<nat>, b: Seq<nat>)
    ensures
        is_newer(a, b) || is_newer(b, a) || forall|i: int|
            segment_at(a, i) == #[trigger] segment_at(b, i),
{
    let n = a.len() + b.len();
    lemma_decided_or_agreeing(a, b, n);
}

/// Versions whose texts hold no number at all are equal to every other such
/// version: neither is newer.
pub proof fn lemma_empty_versions_equal(current: Seq<nat>, latest: Seq<nat>)
    requires
        current.len() == 0,
        latest.len() == 0,
    ensures
        !is_newer(current, latest),
{
}

/// A run of digits denotes at least what any of its prefixes denotes.
proof fn lemma_decimal_value_grows(digits: Seq<char>, k: int)
    requires
        0 <= k <= digits.len(),
    ensures
        decimal_value(digits.take(k)) <= decimal_value(digits),
    decreases digits.len() - k,
{
    if k == digits.len() {
        assert(digits.take(k) =~= digits);
    } else {
        lemma_decimal_value_grows(digits, k + 1);
        assert(digits.take(k + 1).drop_last() =~= digits.take(k));
    }
}

/// Reads one piece of a version text as a number.
pub fn parse_segment_chars(piece: &Vec<char>) -> (parsed: Option<u32>)
    ensures
        match parsed {
            Some(n) => parse_segment(piece@) == Some(n as nat),
            None => parse_segment(piece@) is None,
        },
{
    let start: usize = if piece.len() > 0 && piece[0] == '+' {
        1
    } else {
        0
    };
    if start == piece.len() {
        return None;
    }
    let ghost digits = unsigned_part(piece@);
    assert(digits =~= piece@.subrange(start as int, piece.len() as int));
    let mut value: u64 = 0;
    let mut i: usize = start;
    assert(digits.take(0) =~= Seq::<char>::empty());
    while i < piece.len()
        invariant
            start <= i <= piece.len(),
            start <= 1,
            digits == unsigned_part(piece@),
            digits == piece@.subrange(start as int, piece.len() as int),
            all_digits(digits.take(i - start)),
            value == decimal_value(digits.take(i - start)),
            value <= u32::MAX,
        decreases piece.len() - i,
    {
        let c: char = piece[i];
        if c < '0' || c > '9' {
            assert(!is_digit(digits[i - start]));
            return None;
        }
        let digit: u64 = (c as u32 - '0' as u32) as u64;
        proof {
            assert(digits.take(i - start + 1).drop_last() =~= digits.take(i - start));
            assert(digits.take(i - start + 1).last() == c);
        }
        value = value * 10 + digit;
        if value > 0xffff_ffff {
            proof {
                lemma_decimal_value_grows(digits, i - start + 1);
            }
            return None;
        }
        i += 1;
    }
    assert(digits.take(i - start) =~= digits);
    Some(value as u32)
}

/// Reads the segments of a version text: its pieces between dots, each
/// read as a number, those that are no number left out.
pub fn parse_version_text(s: &str) -> (segments: Vec<u32>)
    ensures
        segments_of(segments@) == parse_version(s@),
{
    let chars = chars_of(s);
    let mut segments: Vec<u32> = Vec::new();
    let mut piece: Vec<char> = Vec::new();
    let mut i: usize = 0;
    proof {
        assert(chars@.take(0) =~= Seq::<char>::empty());
        assert(split(chars@.take(0), '.').drop_last() =~= Seq::<Seq<char>>::empty());
        assert(segments_of(segments@) =~= Seq::<nat>::empty());
    }
    while i < chars.len()
        invariant
            i <= chars.len(),
            split(chars@.take(i as int), '.').len() >= 1,
            piece@ == split(chars@.take(i as int), '.').last(),
            segments_of(segments@) == parsed_segments(
                split(chars@.take(i as int), '.').drop_last(),
            ),
        decreases chars.len() - i,
    {
        let ghost before = split(chars@.take(i as int), '.');
        proof {
            assert(chars@.take(i + 1).drop_last() =~= chars@.take(i as int));
            assert(chars@.take(i + 1).last() == chars@[i as int]);
        }
        if chars[i] == '.' {
            let ghost held = segments@;
            match parse_segment_chars(&piece) {
                Some(n) => {
                    segments.push(n);
                    assert(segments_of(segments@) =~= segments_of(held).push(n as nat));
                },
                None => {},
            }
            piece = Vec::new();
            proof {
                let after = split(chars@.take(i + 1), '.');
                assert(after == before.push(Seq::<char>::empty()));
                assert(after.drop_last() =~= before);
            }
        } else {
            piece.push(chars[i]);
            proof {
                let after = split(chars@.take(i + 1), '.');
                assert(after == before.drop_last().push(before.last().push(chars@[i as int])));
                assert(after.drop_last() =~= before.drop_last());
            }
        }
        i += 1;
    }
    assert(chars@.take(i as int) =~= chars@);
    let ghost held = segments@;
    match parse_segment_chars(&piece) {
        Some(n) => {
            segments.push(n);
            assert(segments_of(segments@) =~= segments_of(held).push(n as nat));
        },
        None => {},
    }
    segments
}

/// Whether `latest` is strictly greater than `current`, segment by segment.
pub fn is_newer_segments(current: &Vec<u32>, latest: &Vec<u32>) -> (newer: bool)
    ensures
        newer == is_newer(segments_of(current@), segments_of(latest@)),
{
    let ghost c = segments_of(current@);
    let ghost l = segments_of(latest@);
    let n: usize = if current.len() >= latest.len() {
        current.len()
    } else {
        latest.len()
    };
    let mut i: usize = 0;
    while i < n
        invariant
            i <= n,
            n >= current.len(),
            n >= latest.len(),
            c == segments_of(current@),
            l == segments_of(latest@),
            agree_before(c, l, i as int),
        decreases n - i,
    {
        let current_part: u32 = if i < current.len() {
            current[i]
        } else {
            0
        };
        let latest_part: u32 = if i < latest.len() {
            latest[i]
        } else {
            0
        };
        assert(current_part == segment_at(c, i as int));
        assert(latest_part == segment_at(l, i as int));
        if latest_part > current_part {
            return true;
        } else if latest_part < current_part {
            assert forall|k: int|
                0 <= k && agree_before(c, l, k) implies !(#[trigger] segment_at(l, k) > segment_at(
                c,
                k,
            )) by {
                if k > i {
                    assert(segment_at(c, i as int) == segment_at(l, i as int));
                }
            }
            return false;
        }
        i += 1;
    }
    assert forall|k: int| 0 <= k implies !(#[trigger] segment_at(l, k) > segment_at(c, k)) by {
        if k < n {
            assert(segment_at(c, k) == segment_at(l, k));
        }
    }
    false
}

/// Whether the version text `latest` is strictly greater than `current`.
///
/// Both texts are read as dotted numbers; pieces that are no number are
/// left out, and the shorter version counts as continued with zeros. Equal
/// versions, and texts that hold no number at all, are not newer.
pub fn compare_versions(current: &str, latest: &str) -> (newer: bool)
    ensures
        newer == is_newer(parse_version(current@), parse_version(latest@)),
{
    let current_parts = parse_version_text(current);
    let latest_parts = parse_version_text(latest);
    is_newer_segments(&current_parts, &latest_parts)
}

} // verus!
