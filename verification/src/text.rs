//! Byte strings: the serial link carries bytes, and every line, command and
//! message of this crate is a `Vec<u8>` whose view is a `Seq<u8>`.

use vstd::prelude::*;
use vstd::string::*;

verus! {

/// The bytes of a string literal.
pub open spec fn lit(s: &str) -> Seq<u8> {
    s.spec_bytes()
}

/// The byte strings that a vector of byte vectors holds.
pub open spec fn views(v: Seq<Vec<u8>>) -> Seq<Seq<u8>> {
    Seq::new(v.len(), |i: int| v[i]@)
}

/// An ASCII decimal digit.
pub open spec fn is_digit(b: u8) -> bool {
    48 <= b <= 57
}

/// A letter or a digit of ASCII.
pub open spec fn is_alphanumeric(b: u8) -> bool {
    (48 <= b <= 57) || (65 <= b <= 90) || (97 <= b <= 122)
}

/// ASCII white space: the space, and the controls from tab to carriage return.
pub open spec fn is_space(b: u8) -> bool {
    b == 32 || (9 <= b <= 13)
}

/// The lower-case form of an ASCII letter; any other byte is unchanged.
pub open spec fn lower(b: u8) -> u8 {
    if 65 <= b <= 90 {
        (b + 32) as u8
    } else {
        b
    }
}

/// `s` with every ASCII letter in lower case.
pub open spec fn lowered(s: Seq<u8>) -> Seq<u8> {
    Seq::new(s.len(), |i: int| lower(s[i]))
}

/// `p` occurs in `s` at index `i`.
pub open spec fn occurs_at(s: Seq<u8>, p: Seq<u8>, i: int) -> bool {
    0 <= i && i + p.len() <= s.len() && s.subrange(i, i + p.len()) == p
}

/// `p` occurs somewhere in `s`.
pub open spec fn occurs_in(s: Seq<u8>, p: Seq<u8>) -> bool {
    exists|i: int| occurs_at(s, p, i)
}

/// The least index in `from..end` at which `hit` holds, or `end` if there is none.
pub open spec fn first_from(hit: spec_fn(int) -> bool, from: int, end: int) -> int
    decreases end - from,
{
    if from >= end {
        end
    } else if hit(from) {
        from
    } else {
        first_from(hit, from + 1, end)
    }
}

/// What `first_from` returns is the least hit.
pub proof fn lemma_first_from(hit: spec_fn(int) -> bool, from: int, end: int)
    requires
        from <= end,
    ensures
        from <= first_from(hit, from, end) <= end,
        first_from(hit, from, end) < end ==> hit(first_from(hit, from, end)),
        forall|j: int| from <= j < first_from(hit, from, end) ==> !#[trigger] hit(j),
    decreases end - from,
{
    if from < end && !hit(from) {
        lemma_first_from(hit, from + 1, end);
    }
}

/// A search whose range holds no hit returns the end of the range.
pub proof fn lemma_first_from_none(hit: spec_fn(int) -> bool, from: int, end: int)
    requires
        from <= end,
        forall|j: int| from <= j < end ==> !#[trigger] hit(j),
    ensures
        first_from(hit, from, end) == end,
    decreases end - from,
{
    if from < end {
        lemma_first_from_none(hit, from + 1, end);
    }
}

/// The first index at or behind `from` where `p` occurs in `s`, or the length
/// of `s` if there is none.
pub open spec fn first_occurrence(s: Seq<u8>, p: Seq<u8>, from: int) -> int {
    first_from(|j: int| occurs_at(s, p, j), from, s.len() as int)
}

/// The index just behind the run of digits that starts at `i`.
pub open spec fn digits_end(s: Seq<u8>, i: int) -> int {
    first_from(|j: int| !is_digit(s[j]), i, s.len() as int)
}

/// The number that a sequence of decimal digits writes.
pub open spec fn decimal_value(digits: Seq<u8>) -> nat
    decreases digits.len(),
{
    if digits.len() == 0 {
        0
    } else {
        (10 * decimal_value(digits.drop_last()) + (digits.last() - 48)) as nat
    }
}

/// `n`, or the largest `u64` if `n` is larger.
pub open spec fn saturated(n: nat) -> u64 {
    if n > u64::MAX {
        u64::MAX
    } else {
        n as u64
    }
}

/// The decimal digits of `n`, most significant first, without leading zeros.
pub open spec fn decimal_digits(n: nat) -> Seq<u8>
    decreases n,
{
    if n < 10 {
        seq![(48 + n) as u8]
    } else {
        decimal_digits(n / 10).push((48 + n % 10) as u8)
    }
}

/// The bytes that are no space.
pub open spec fn not_space() -> spec_fn(u8) -> bool {
    |b: u8| b != 32
}

/// `s` without its space bytes.
pub open spec fn without_spaces(s: Seq<u8>) -> Seq<u8> {
    s.filter(not_space())
}

/// How many white-space bytes `s` begins with.
pub open spec fn leading_space(s: Seq<u8>) -> int {
    first_from(|j: int| !is_space(s[j]), 0, s.len() as int)
}

/// How many white-space bytes `s` ends with, behind its leading ones.
pub open spec fn trailing_space(s: Seq<u8>) -> int {
    first_from(|j: int| !is_space(s[s.len() - 1 - j]), 0, s.len() - leading_space(s))
}

/// `s` without the white space at its two ends.
pub open spec fn trimmed(s: Seq<u8>) -> Seq<u8> {
    s.subrange(leading_space(s), s.len() - trailing_space(s))
}

/// The index of the first semicolon of `s`, or the length of `s`.
pub open spec fn comment_start(s: Seq<u8>) -> int {
    first_from(|j: int| s[j] == 59, 0, s.len() as int)
}

/// What stands before the first semicolon of `s`: all of `s` if it has none.
pub open spec fn before_comment(s: Seq<u8>) -> Seq<u8> {
    s.subrange(0, comment_start(s))
}

/// The exclusive or of all bytes of `s`.
pub open spec fn xor_all(s: Seq<u8>) -> u8
    decreases s.len(),
{
    if s.len() == 0 {
        0
    } else {
        xor_all(s.drop_last()) ^ s.last()
    }
}

/// A copy of a byte string.
pub fn copy_bytes(s: &[u8]) -> (r: Vec<u8>)
    ensures
        r@ == s@,
{
    let mut r: Vec<u8> = Vec::new();
    let mut i: usize = 0;
    while i < s.len()
        invariant
            i <= s.len(),
            r@ == s@.subrange(0, i as int),
        decreases s.len() - i,
    {
        r.push(s[i]);
        i = i + 1;
        assert(r@ == s@.subrange(0, i as int));
    }
    assert(r@ == s@);
    r
}

/// The bytes of a string.
pub fn bytes_of(s: &str) -> (r: Vec<u8>)
    ensures
        r@ == lit(s),
{
    copy_bytes(s.as_bytes())
}

/// Whether two byte strings hold the same bytes.
pub fn same_bytes(a: &[u8], b: &[u8]) -> (r: bool)
    ensures
        r == (a@ == b@),
{
    if a.len() != b.len() {
        return false;
    }
    let mut i: usize = 0;
    while i < a.len()
        invariant
            i <= a.len(),
            a.len() == b.len(),
            a@.subrange(0, i as int) == b@.subrange(0, i as int),
        decreases a.len() - i,
    {
        if a[i] != b[i] {
            return false;
        }
        i = i + 1;
        assert(a@.subrange(0, i as int) == a@.subrange(0, i - 1).push(a@[i - 1]));
        assert(b@.subrange(0, i as int) == b@.subrange(0, i - 1).push(b@[i - 1]));
    }
    assert(a@ == a@.subrange(0, a.len() as int));
    assert(b@ == b@.subrange(0, b.len() as int));
    true
}

/// Whether `p` stands in `s` at index `i`.
pub fn matches_at(s: &[u8], p: &[u8], i: usize) -> (r: bool)
    ensures
        r == occurs_at(s@, p@, i as int),
{
    if i > s.len() || p.len() > s.len() - i {
        return false;
    }
    let mut k: usize = 0;
    while k < p.len()
        invariant
            k <= p.len(),
            i + p.len() <= s.len(),
            s@.subrange(i as int, i + k) == p@.subrange(0, k as int),
        decreases p.len() - k,
    {
        if s[i + k] != p[k] {
            assert(s@.subrange(i as int, i + p.len())[k as int] != p@[k as int]);
            return false;
        }
        k = k + 1;
        assert(s@.subrange(i as int, i + k) == s@.subrange(i as int, i + k - 1).push(s@[i + k - 1]));
        assert(p@.subrange(0, k as int) == p@.subrange(0, k - 1).push(p@[k - 1]));
    }
    assert(p@ == p@.subrange(0, p.len() as int));
    true
}

/// Whether `s` begins with `p`.
pub fn starts_with(s: &[u8], p: &[u8]) -> (r: bool)
    ensures
        r == p@.is_prefix_of(s@),
{
    matches_at(s, p, 0)
}

/// The lower-case form of one byte.
pub fn lower_byte(b: u8) -> (r: u8)
    ensures
        r == lower(b),
{
    if 65 <= b && b <= 90 {
        b + 32
    } else {
        b
    }
}

/// Whether `s` begins with `p` once the letters of `s` are put in lower case.
pub fn starts_with_lowered(s: &[u8], p: &[u8]) -> (r: bool)
    ensures
        r == p@.is_prefix_of(lowered(s@)),
{
    if p.len() > s.len() {
        return false;
    }
    let mut k: usize = 0;
    while k < p.len()
        invariant
            k <= p.len(),
            p.len() <= s.len(),
            lowered(s@).subrange(0, k as int) == p@.subrange(0, k as int),
        decreases p.len() - k,
    {
        if lower_byte(s[k]) != p[k] {
            assert(lowered(s@).subrange(0, p.len() as int)[k as int] != p@[k as int]);
            return false;
        }
        k = k + 1;
        assert(lowered(s@).subrange(0, k as int) == lowered(s@).subrange(0, k - 1).push(
            lowered(s@)[k - 1],
        ));
        assert(p@.subrange(0, k as int) == p@.subrange(0, k - 1).push(p@[k - 1]));
    }
    assert(p@ == p@.subrange(0, p.len() as int));
    true
}

/// The first index at or behind `from` where `p` occurs in `s`.
pub(crate) fn find_from(s: &[u8], p: &[u8], from: usize) -> (r: usize)
    requires
        from <= s.len(),
    ensures
        r == first_occurrence(s@, p@, from as int),
        from <= r <= s.len(),
{
    let ghost hit = |j: int| occurs_at(s@, p@, j);
    let mut i: usize = from;
    while i < s.len()
        invariant
            from <= i <= s.len(),
            hit == (|j: int| occurs_at(s@, p@, j)),
            first_from(hit, from as int, s.len() as int) == first_from(
                hit,
                i as int,
                s.len() as int,
            ),
        decreases s.len() - i,
    {
        if matches_at(s, p, i) {
            return i;
        }
        i = i + 1;
    }
    i
}

/// Whether `p` occurs in `s`.
pub fn contains(s: &[u8], p: &[u8]) -> (r: bool)
    ensures
        r == occurs_in(s@, p@),
{
    let ghost hit = |j: int| occurs_at(s@, p@, j);
    let at = find_from(s, p, 0);
    proof {
        lemma_first_from(hit, 0, s.len() as int);
    }
    if at < s.len() {
        assert(occurs_at(s@, p@, at as int));
        true
    } else if p.len() == 0 {
        assert(s@.subrange(s.len() as int, s.len() as int) == p@);
        assert(occurs_at(s@, p@, s.len() as int));
        true
    } else {
        assert forall|j: int| !occurs_at(s@, p@, j) by {
            if 0 <= j < s.len() {
                assert(!hit(j));
            }
        }
        false
    }
}

/// The index just behind the digits that start at `i`.
pub(crate) fn skip_digits(s: &[u8], i: usize) -> (r: usize)
    requires
        i <= s.len(),
    ensures
        r == digits_end(s@, i as int),
        i <= r <= s.len(),
{
    let ghost hit = |j: int| !is_digit(s@[j]);
    let mut k: usize = i;
    while k < s.len()
        invariant
            i <= k <= s.len(),
            hit == (|j: int| !is_digit(s@[j])),
            first_from(hit, i as int, s.len() as int) == first_from(hit, k as int, s.len() as int),
        decreases s.len() - k,
    {
        if s[k] < 48 || s[k] > 57 {
            return k;
        }
        k = k + 1;
    }
    k
}

/// The number written by the digits `s[from..to]`, cut off at the largest `u64`.
pub(crate) fn parse_decimal(s: &[u8], from: usize, to: usize) -> (r: u64)
    requires
        from <= to <= s.len(),
        forall|j: int| from <= j < to ==> is_digit(#[trigger] s@[j]),
    ensures
        r == saturated(decimal_value(s@.subrange(from as int, to as int))),
{
    let mut acc: u64 = 0;
    let mut k: usize = from;
    assert(s@.subrange(from as int, from as int).len() == 0);
    while k < to
        invariant
            from <= k <= to <= s.len(),
            forall|j: int| from <= j < to ==> is_digit(#[trigger] s@[j]),
            acc == saturated(decimal_value(s@.subrange(from as int, k as int))),
        decreases to - k,
    {
        let ghost before = s@.subrange(from as int, k as int);
        let ghost after = s@.subrange(from as int, k + 1);
        assert(after.drop_last() == before);
        assert(after.last() == s@[k as int]);
        assert(decimal_value(after) == 10 * decimal_value(before) + (s@[k as int] - 48));
        let d: u64 = (s[k] - 48) as u64;
        if acc > (u64::MAX - d) / 10 {
            acc = u64::MAX;
        } else {
            acc = acc * 10 + d;
        }
        k = k + 1;
    }
    acc
}

/// The decimal digits of `n`.
pub fn to_digits(n: u64) -> (r: Vec<u8>)
    ensures
        r@ == decimal_digits(n as nat),
    decreases n,
{
    if n < 10 {
        let mut r: Vec<u8> = Vec::new();
        r.push(48 + n as u8);
        assert(r@ == decimal_digits(n as nat));
        r
    } else {
        let mut r = to_digits(n / 10);
        r.push(48 + (n % 10) as u8);
        r
    }
}

/// A copy of `s[from..to]`.
pub(crate) fn slice_of(s: &[u8], from: usize, to: usize) -> (r: Vec<u8>)
    requires
        from <= to <= s.len(),
    ensures
        r@ == s@.subrange(from as int, to as int),
{
    let mut r: Vec<u8> = Vec::new();
    let mut i: usize = from;
    while i < to
        invariant
            from <= i <= to <= s.len(),
            r@ == s@.subrange(from as int, i as int),
        decreases to - i,
    {
        r.push(s[i]);
        i = i + 1;
        assert(r@ == s@.subrange(from as int, i as int));
    }
    r
}

/// Whether `b` is white space.
pub fn space_byte(b: u8) -> (r: bool)
    ensures
        r == is_space(b),
{
    b == 32 || (9 <= b && b <= 13)
}

/// `s` without the white space at its two ends.
pub fn trim(s: &[u8]) -> (r: Vec<u8>)
    ensures
        r@ == trimmed(s@),
{
    let ghost front = |j: int| !is_space(s@[j]);
    let mut a: usize = 0;
    while a < s.len() && space_byte(s[a])
        invariant
            a <= s.len(),
            front == (|j: int| !is_space(s@[j])),
            first_from(front, 0, s.len() as int) == first_from(front, a as int, s.len() as int),
        decreases s.len() - a,
    {
        a = a + 1;
    }
    assert(a == leading_space(s@));
    let ghost back = |j: int| !is_space(s@[s@.len() - 1 - j]);
    let mut t: usize = 0;
    while t < s.len() - a && space_byte(s[s.len() - 1 - t])
        invariant
            a <= s.len(),
            t <= s.len() - a,
            back == (|j: int| !is_space(s@[s@.len() - 1 - j])),
            first_from(back, 0, s.len() - a) == first_from(back, t as int, s.len() - a),
        decreases s.len() - a - t,
    {
        t = t + 1;
    }
    assert(t == trailing_space(s@));
    slice_of(s, a, s.len() - t)
}

/// `s` without its space bytes.
pub fn strip_spaces(s: &[u8]) -> (r: Vec<u8>)
    ensures
        r@ == without_spaces(s@),
{
    let mut r: Vec<u8> = Vec::new();
    let mut i: usize = 0;
    assert(s@.subrange(0, 0) == Seq::<u8>::empty());
    assert(without_spaces(Seq::<u8>::empty()) == Seq::<u8>::empty()) by {
        reveal(Seq::filter);
    }
    while i < s.len()
        invariant
            i <= s.len(),
            r@ == without_spaces(s@.subrange(0, i as int)),
        decreases s.len() - i,
    {
        proof {
            assert(s@.subrange(0, i + 1) == s@.subrange(0, i as int).push(s@[i as int]));
            s@.subrange(0, i as int).lemma_filter_push(s@[i as int], not_space());
        }
        if s[i] != 32 {
            r.push(s[i]);
        }
        i = i + 1;
    }
    assert(s@.subrange(0, s.len() as int) == s@);
    r
}

/// What stands before the first semicolon of `s`.
pub fn cut_comment(s: &[u8]) -> (r: Vec<u8>)
    ensures
        r@ == before_comment(s@),
{
    let ghost hit = |j: int| s@[j] == 59;
    let mut i: usize = 0;
    while i < s.len() && s[i] != 59
        invariant
            i <= s.len(),
            hit == (|j: int| s@[j] == 59),
            first_from(hit, 0, s.len() as int) == first_from(hit, i as int, s.len() as int),
        decreases s.len() - i,
    {
        i = i + 1;
    }
    slice_of(s, 0, i)
}

/// The exclusive or of all bytes of `s`.
pub fn xor_bytes(s: &[u8]) -> (r: u8)
    ensures
        r == xor_all(s@),
{
    let mut acc: u8 = 0;
    let mut i: usize = 0;
    assert(s@.subrange(0, 0).len() == 0);
    while i < s.len()
        invariant
            i <= s.len(),
            acc == xor_all(s@.subrange(0, i as int)),
        decreases s.len() - i,
    {
        assert(s@.subrange(0, i + 1).drop_last() == s@.subrange(0, i as int));
        acc = acc ^ s[i];
        i = i + 1;
    }
    assert(s@.subrange(0, s.len() as int) == s@);
    acc
}

/// Appends the bytes of `tail` to `out`.
pub fn append(out: &mut Vec<u8>, tail: &[u8])
    ensures
        final(out)@ == old(out)@ + tail@,
{
    let mut i: usize = 0;
    while i < tail.len()
        invariant
            i <= tail.len(),
            out@ == old(out)@ + tail@.subrange(0, i as int),
        decreases tail.len() - i,
    {
        out.push(tail[i]);
        i = i + 1;
        assert(out@ == old(out)@ + tail@.subrange(0, i as int));
    }
    assert(tail@.subrange(0, tail.len() as int) == tail@);
}

/// A copy of a list of byte strings.
pub fn copy_lines(lines: &Vec<Vec<u8>>) -> (r: Vec<Vec<u8>>)
    ensures
        views(r@) == views(lines@),
{
    let mut r: Vec<Vec<u8>> = Vec::new();
    let mut i: usize = 0;
    while i < lines.len()
        invariant
            i <= lines.len(),
            views(r@) == views(lines@).subrange(0, i as int),
        decreases lines.len() - i,
    {
        let line = copy_bytes(lines[i].as_slice());
        let ghost before = views(r@);
        r.push(line);
        assert(views(r@) == before.push(line@));
        assert(views(lines@).subrange(0, i + 1) == views(lines@).subrange(0, i as int).push(
            views(lines@)[i as int],
        ));
        i = i + 1;
    }
    assert(views(lines@).subrange(0, lines.len() as int) == views(lines@));
    r
}

/// No byte of `s` is a space.
pub open spec fn spaceless(s: Seq<u8>) -> bool {
    forall|i: int| 0 <= i < s.len() ==> #[trigger] s[i] != 32
}

/// Gluing two byte strings without a space gives one without a space.
pub proof fn lemma_spaceless_add(a: Seq<u8>, b: Seq<u8>)
    requires
        spaceless(a),
        spaceless(b),
    ensures
        spaceless(a + b),
{
    assert forall|i: int| 0 <= i < (a + b).len() implies #[trigger] (a + b)[i] != 32 by {
        if i < a.len() {
            assert((a + b)[i] == a[i]);
        } else {
            assert((a + b)[i] == b[i - a.len()]);
        }
    }
}

/// A number's decimal form holds at least one byte, and digits only.
pub proof fn lemma_decimal_digits(n: nat)
    ensures
        decimal_digits(n).len() >= 1,
        forall|i: int| 0 <= i < decimal_digits(n).len() ==> is_digit(#[trigger] decimal_digits(n)[i]),
        spaceless(decimal_digits(n)),
    decreases n,
{
    if n >= 10 {
        lemma_decimal_digits(n / 10);
    }
}

/// What is left of a byte string without its spaces holds no space.
pub proof fn lemma_without_spaces(s: Seq<u8>)
    ensures
        spaceless(without_spaces(s)),
        spaceless(s) ==> without_spaces(s) == s,
    decreases s.len(),
{
    reveal(Seq::filter);
    if s.len() > 0 {
        lemma_without_spaces(s.drop_last());
        if spaceless(s) {
            assert(s.drop_last().push(s.last()) == s);
            assert(s.last() != 32);
            assert forall|i: int| 0 <= i < s.drop_last().len() implies #[trigger] s.drop_last()[i]
                != 32 by {
                assert(s.drop_last()[i] == s[i]);
            }
        }
    }
}

/// A space more or less in a byte string changes nothing in what is left of
/// it without its spaces.
pub proof fn lemma_space_dropped(a: Seq<u8>, b: Seq<u8>)
    ensures
        without_spaces(a + seq![32u8] + b) == without_spaces(a + b),
{
    Seq::filter_distributes_over_add(a + seq![32u8], b, not_space());
    Seq::filter_distributes_over_add(a, seq![32u8], not_space());
    Seq::filter_distributes_over_add(a, b, not_space());
    assert(seq![32u8].filter(not_space()) == Seq::<u8>::empty()) by {
        reveal_with_fuel(Seq::filter, 2);
        assert(seq![32u8].drop_last() == Seq::<u8>::empty());
    }
    assert(a.filter(not_space()) + Seq::<u8>::empty() == a.filter(not_space()));
}

} // verus!
