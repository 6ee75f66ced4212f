//! Reading a line of the form `Comodity-Amount`, such as `Iron-3`.

use vstd::prelude::*;
use vstd::std_specs::iter::IteratorSpec;
use crate::comodity::Comodity;

verus! {

/// Why a line is not a comodity and an amount.
#[derive(Copy, Clone, Debug, PartialEq, Eq, Structural)]
pub enum ParseError {
    /// The name is not in the name table.
    UnknownComodity,
    /// The line is not two parts with one `-` between them, or the second
    /// part is not a number that fits 32 bits.
    MalformedAmount,
}

/// The kind whose name is `name`, letter for letter.
pub open spec fn comodity_named(name: Seq<char>) -> Option<Comodity> {
    if name == Comodity::Any.label() {
        Some(Comodity::Any)
    } else if name == Comodity::Coal.label() {
        Some(Comodity::Coal)
    } else if name == Comodity::Goods.label() {
        Some(Comodity::Goods)
    } else if name == Comodity::Iron.label() {
        Some(Comodity::Iron)
    } else if name == Comodity::Luxury.label() {
        Some(Comodity::Luxury)
    } else if name == Comodity::Wheat.label() {
        Some(Comodity::Wheat)
    } else if name == Comodity::Wood.label() {
        Some(Comodity::Wood)
    } else {
        None
    }
}

/// No `-` occurs in `s`.
pub open spec fn no_dash(s: Seq<char>) -> bool {
    forall|i: int| 0 <= i < s.len() ==> s[i] != '-'
}

/// The one `-` of `s` stands at `k`.
pub open spec fn splits_at(s: Seq<char>, k: int) -> bool {
    &&& 0 <= k < s.len()
    &&& s[k] == '-'
    &&& no_dash(s.take(k))
    &&& no_dash(s.skip(k + 1))
}

/// `s` is two parts with one `-` between them.
pub open spec fn two_parts(s: Seq<char>) -> bool {
    exists|k: int| splits_at(s, k)
}

/// Where the `-` of a line of two parts stands.
pub open spec fn split_point(s: Seq<char>) -> int {
    choose|k: int| splits_at(s, k)
}

/// `c` is one of the ten decimal digits.
pub open spec fn is_digit(c: char) -> bool {
    '0' <= c <= '9'
}

/// The number that a run of decimal digits writes.
pub open spec fn decimal(digits: Seq<char>) -> nat
    decreases digits.len(),
{
    if digits.len() == 0 {
        0
    } else {
        decimal(digits.drop_last()) * 10 + (digits.last() as u32 - '0' as u32) as nat
    }
}

/// The digits of an amount: the text without one leading `+`.
pub open spec fn digits_of(text: Seq<char>) -> Seq<char> {
    if text.len() > 0 && text[0] == '+' {
        text.skip(1)
    } else {
        text
    }
}

/// `text` writes an amount: one or more decimal digits, after at most one
/// `+`, whose number fits 32 bits.
pub open spec fn is_amount(text: Seq<char>) -> bool {
    let digits = digits_of(text);
    &&& digits.len() >= 1
    &&& forall|i: int| 0 <= i < digits.len() ==> is_digit(#[trigger] digits[i])
    &&& decimal(digits) <= u32::MAX
}

/// What a line means: the comodity that its first part names and the amount
/// that its second part writes, or why it means neither. The shape of the
/// line is judged first, then the name, then the amount.
pub open spec fn parsed(line: Seq<char>) -> Result<(Comodity, u32), ParseError> {
    if !two_parts(line) {
        Err(ParseError::MalformedAmount)
    } else {
        let k = split_point(line);
        match comodity_named(line.take(k)) {
            None => Err(ParseError::UnknownComodity),
            Some(c) => if is_amount(line.skip(k + 1)) {
                Ok((c, decimal(digits_of(line.skip(k + 1))) as u32))
            } else {
                Err(ParseError::MalformedAmount)
            },
        }
    }
}

/// A line has its `-` in one place only.
pub proof fn lemma_split_point_unique(s: Seq<char>, k: int)
    requires
        splits_at(s, k),
    ensures
        two_parts(s),
        split_point(s) == k,
{
    let j = split_point(s);
    assert(splits_at(s, j));
    if j < k {
        assert(s.take(k)[j] == s[j]);
    } else if j > k {
        assert(s.skip(k + 1)[j - k - 1] == s[j]);
    }
}

/// The number of a run of digits is at least that of each of its prefixes.
pub proof fn lemma_decimal_prefix(digits: Seq<char>, n: int)
    requires
        0 <= n <= digits.len(),
        forall|i: int| 0 <= i < digits.len() ==> is_digit(#[trigger] digits[i]),
    ensures
        decimal(digits.take(n)) <= decimal(digits),
    decreases digits.len(),
{
    if n == digits.len() {
        assert(digits.take(n) == digits);
    } else {
        assert(digits.drop_last().take(n) == digits.take(n));
        lemma_decimal_prefix(digits.drop_last(), n);
    }
}

/// The characters of `s`, in order.
pub fn chars_of(s: &str) -> (v: Vec<char>)
    ensures
        v@ == s@,
{
    broadcast use vstd::string::group_string_axioms;

    let mut v: Vec<char> = Vec::new();
    let mut rest = s.chars();
    loop
        invariant
            rest.obeys_prophetic_iter_laws(),
            rest.decrease() is Some,
            v@ + rest.remaining() == s@,
        ensures
            v@ == s@,
        decreases rest.decrease()->0,
    {
        let ghost before = rest.remaining();
        let ghost listed = v@;
        match rest.next() {
            Some(c) => {
                v.push(c);
                assert(v@ + rest.remaining() =~= listed + before);
            },
            None => {
                assert(v@ + before =~= v@);
                break ;
            },
        }
    }
    v
}

/// Whether the characters `text[from..to]` are those of `word`.
pub fn part_is(text: &Vec<char>, from: usize, to: usize, word: &str) -> (b: bool)
    requires
        from <= to <= text@.len(),
    ensures
        b == (text@.subrange(from as int, to as int) == word@),
{
    let letters = chars_of(word);
    let n = letters.len();
    if n != to - from {
        return false;
    }
    let mut i: usize = 0;
    while i < n
        invariant
            letters@ == word@,
            n == letters@.len(),
            n == to - from,
            from <= to <= text@.len(),
            0 <= i <= n,
            forall|j: int| 0 <= j < i ==> text@[from + j] == word@[j],
        decreases n - i,
    {
        if text[from + i] != letters[i] {
            assert(text@.subrange(from as int, to as int)[i as int] != word@[i as int]);
            return false;
        }
        i += 1;
    }
    assert(text@.subrange(from as int, to as int) =~= word@);
    true
}

/// The kind that `text[from..to]` names, if it names one.
pub fn comodity_in(text: &Vec<char>, from: usize, to: usize) -> (r: Option<Comodity>)
    requires
        from <= to <= text@.len(),
    ensures
        r == comodity_named(text@.subrange(from as int, to as int)),
{
    if part_is(text, from, to, Comodity::Any.name()) {
        Some(Comodity::Any)
    } else if part_is(text, from, to, Comodity::Coal.name()) {
        Some(Comodity::Coal)
    } else if part_is(text, from, to, Comodity::Goods.name()) {
        Some(Comodity::Goods)
    } else if part_is(text, from, to, Comodity::Iron.name()) {
        Some(Comodity::Iron)
    } else if part_is(text, from, to, Comodity::Luxury.name()) {
        Some(Comodity::Luxury)
    } else if part_is(text, from, to, Comodity::Wheat.name()) {
        Some(Comodity::Wheat)
    } else if part_is(text, from, to, Comodity::Wood.name()) {
        Some(Comodity::Wood)
    } else {
        None
    }
}

/// The amount that `text[from..]` writes, if it writes one.
pub fn amount_in(text: &Vec<char>, from: usize) -> (r: Option<u32>)
    requires
        from <= text@.len(),
    ensures
        r is Some <==> is_amount(text@.skip(from as int)),
        r matches Some(n) ==> n == decimal(digits_of(text@.skip(from as int))),
{
    let len = text.len();
    let ghost tail = text@.skip(from as int);
    let start: usize = if from < len && text[from] == '+' {
        from + 1
    } else {
        from
    };
    let ghost digits = text@.skip(start as int);
    assert(digits == digits_of(tail)) by {
        if start == from + 1 {
            assert(tail[0] == '+');
            assert(tail.skip(1) =~= digits);
        }
    }
    if start == len {
        return None;
    }
    let mut acc: u32 = 0;
    let mut i: usize = start;
    while i < len
        invariant
            from <= start <= i <= len,
            len == text@.len(),
            tail == text@.skip(from as int),
            digits == text@.skip(start as int),
            digits == digits_of(tail),
            digits.len() == len - start,
            forall|j: int| 0 <= j < i - start ==> is_digit(#[trigger] digits[j]),
            acc == decimal(digits.take(i - start)),
        decreases len - i,
    {
        let c = text[i];
        assert(c == digits[i - start]);
        if c < '0' || c > '9' {
            assert(!is_digit(digits[i - start]));
            return None;
        }
        let d: u32 = c as u32 - '0' as u32;
        proof {
            assert(digits.take(i - start + 1).drop_last() == digits.take(i - start));
            assert(digits.take(i - start + 1).last() == c);
        }
        if acc > (u32::MAX - d) / 10 {
            proof {
                assert(decimal(digits.take(i - start + 1)) > u32::MAX);
                if is_amount(tail) {
                    lemma_decimal_prefix(digits, i - start + 1);
                }
            }
            return None;
        }
        acc = acc * 10 + d;
        i += 1;
    }
    assert(digits.take(len - start) == digits);
    Some(acc)
}

impl Comodity {
    /// The kind with the given name, letter for letter; `None` for any
    /// other text.
    pub fn from_name(name: &str) -> (r: Option<Comodity>)
        ensures
            r == comodity_named(name@),
    {
        let text = chars_of(name);
        assert(text@.subrange(0, text@.len() as int) == text@);
        comodity_in(&text, 0, text.len())
    }

    /// Reads a comodity and an amount from a line such as `Iron-3`.
    pub fn parse_from_input(input: &str) -> (r: Result<(Comodity, u32), ParseError>)
        ensures
            r == parsed(input@),
    {
        let text = chars_of(input);
        let len = text.len();
        let mut k: usize = 0;
        while k < len && text[k] != '-'
            invariant
                len == text@.len(),
                0 <= k <= len,
                forall|j: int| 0 <= j < k ==> text@[j] != '-',
            decreases len - k,
        {
            k += 1;
        }
        if k == len {
            assert(!two_parts(text@)) by {
                assert forall|j: int| !splits_at(text@, j) by {}
            }
            return Err(ParseError::MalformedAmount);
        }
        let mut m: usize = k + 1;
        while m < len && text[m] != '-'
            invariant
                len == text@.len(),
                k < m <= len,
                forall|j: int| k < j < m ==> text@[j] != '-',
            decreases len - m,
        {
            m += 1;
        }
        if m < len {
            assert(!two_parts(text@)) by {
                assert forall|j: int| !splits_at(text@, j) by {
                    if splits_at(text@, j) {
                        if j < k {
                        } else if j == k {
                            assert(text@.skip(j + 1)[m - j - 1] == text@[m as int]);
                        } else {
                            assert(text@.take(j)[k as int] == text@[k as int]);
                        }
                    }
                }
            }
            return Err(ParseError::MalformedAmount);
        }
        proof {
            assert(splits_at(text@, k as int));
            lemma_split_point_unique(text@, k as int);
            assert(text@.subrange(0, k as int) == text@.take(k as int));
        }
        match comodity_in(&text, 0, k) {
            None => Err(ParseError::UnknownComodity),
            Some(c) => match amount_in(&text, k + 1) {
                Some(n) => Ok((c, n)),
                None => Err(ParseError::MalformedAmount),
            },
        }
    }
}

} // verus!
