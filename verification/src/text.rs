//! Sequences of bytes and characters: searching, joining and decimal numbers.

use vstd::prelude::*;
use vstd::string::StringExecFns;
use vstd::string::StringSliceAdditionalSpecFns;
use vstd::utf8::encode_utf8_decode_utf8;

verus! {

/// `needle` stands in `hay` at position `at`.
pub open spec fn occurs_at<T>(hay: Seq<T>, needle: Seq<T>, at: int) -> bool {
    &&& 0 <= at
    &&& at + needle.len() <= hay.len()
    &&& hay.subrange(at, at + needle.len()) == needle
}

/// `needle` stands somewhere in `hay` as one unbroken run.
pub open spec fn occurs<T>(hay: Seq<T>, needle: Seq<T>) -> bool {
    exists|at: int| occurs_at(hay, needle, at)
}

/// `hay` begins with `needle`.
pub open spec fn starts_with<T>(hay: Seq<T>, needle: Seq<T>) -> bool {
    occurs_at(hay, needle, 0)
}

/// The middle of three runs occurs in their concatenation.
pub proof fn lemma_occurs_in_middle<T>(before: Seq<T>, needle: Seq<T>, after: Seq<T>)
    ensures
        occurs(before + needle + after, needle),
{
    let hay = before + needle + after;
    assert(hay.subrange(before.len() as int, (before.len() + needle.len()) as int) =~= needle);
    assert(occurs_at(hay, needle, before.len() as int));
}

/// The first of two runs occurs in their concatenation.
pub proof fn lemma_occurs_at_start<T>(needle: Seq<T>, after: Seq<T>)
    ensures
        occurs(needle + after, needle),
{
    lemma_occurs_in_middle(Seq::empty(), needle, after);
    assert(Seq::<T>::empty() + needle + after =~= needle + after);
}

/// The second of two runs occurs in their concatenation.
pub proof fn lemma_occurs_at_end<T>(before: Seq<T>, needle: Seq<T>)
    ensures
        occurs(before + needle, needle),
{
    lemma_occurs_in_middle(before, needle, Seq::empty());
    assert(before + needle + Seq::<T>::empty() =~= before + needle);
}

/// What occurs in a part occurs in the whole.
pub proof fn lemma_occurs_transitive<T>(hay: Seq<T>, part: Seq<T>, needle: Seq<T>)
    requires
        occurs(hay, part),
        occurs(part, needle),
    ensures
        occurs(hay, needle),
{
    let i = choose|at: int| occurs_at(hay, part, at);
    let j = choose|at: int| occurs_at(part, needle, at);
    assert(hay.subrange(i + j, i + j + needle.len()) =~= part.subrange(
        j,
        j + needle.len(),
    ));
    assert(occurs_at(hay, needle, i + j));
}

/// Every sequence occurs in itself.
pub proof fn lemma_occurs_in_itself<T>(hay: Seq<T>)
    ensures
        occurs(hay, hay),
{
    assert(hay.subrange(0, hay.len() as int) =~= hay);
    assert(occurs_at(hay, hay, 0));
}

/// Whether `hay` holds `needle` at position `at`.
fn bytes_match_at(hay: &[u8], needle: &[u8], at: usize) -> (r: bool)
    requires
        at + needle@.len() <= hay@.len(),
    ensures
        r == occurs_at(hay@, needle@, at as int),
{
    let size: usize = hay.len();
    let mut k: usize = 0;
    while k < needle.len()
        invariant
            k <= needle@.len(),
            at + needle@.len() <= hay@.len() <= usize::MAX,
            forall|j: int| 0 <= j < k ==> hay@[at + j] == needle@[j],
        decreases needle@.len() - k,
    {
        if hay[at + k] != needle[k] {
            assert(hay@.subrange(at as int, at + needle@.len())[k as int] == hay@[at + k]);
            return false;
        }
        k += 1;
    }
    assert(hay@.subrange(at as int, at + needle@.len()) =~= needle@);
    true
}

/// Whether a byte buffer begins with the given bytes.
pub fn bytes_start_with(hay: &[u8], needle: &[u8]) -> (r: bool)
    ensures
        r == starts_with(hay@, needle@),
{
    if needle.len() > hay.len() {
        return false;
    }
    bytes_match_at(hay, needle, 0)
}

/// Whether a byte buffer holds the given bytes as one unbroken run.
pub fn bytes_contain(hay: &[u8], needle: &[u8]) -> (r: bool)
    ensures
        r == occurs(hay@, needle@),
{
    if needle.len() > hay.len() {
        assert forall|at: int| !occurs_at(hay@, needle@, at) by {}
        return false;
    }
    if needle.len() == 0 {
        assert(hay@.subrange(0, 0) =~= needle@);
        assert(occurs_at(hay@, needle@, 0));
        return true;
    }
    let last: usize = hay.len() - needle.len();
    let mut at: usize = 0;
    while at <= last
        invariant
            last == hay@.len() - needle@.len(),
            0 < needle@.len(),
            hay@.len() <= usize::MAX,
            at <= last + 1,
            forall|j: int| 0 <= j < at ==> !occurs_at(hay@, needle@, j),
        decreases last + 1 - at,
    {
        if bytes_match_at(hay, needle, at) {
            return true;
        }
        at += 1;
    }
    assert forall|j: int| !occurs_at(hay@, needle@, j) by {
        if 0 <= j && j + needle@.len() <= hay@.len() {
            assert(j < at);
        }
    }
    false
}

/// Whether two strings hold the same characters.
pub fn same_text(a: &str, b: &str) -> (r: bool)
    ensures
        r == (a@ == b@),
{
    let x = a.as_bytes();
    let y = b.as_bytes();
    proof {
        encode_utf8_decode_utf8(a@);
        encode_utf8_decode_utf8(b@);
    }
    if x.len() != y.len() {
        return false;
    }
    let mut i: usize = 0;
    while i < x.len()
        invariant
            i <= x@.len(),
            x@.len() == y@.len(),
            x@ == a.spec_bytes(),
            y@ == b.spec_bytes(),
            forall|j: int| 0 <= j < i ==> x@[j] == y@[j],
        decreases x@.len() - i,
    {
        if x[i] != y[i] {
            return false;
        }
        i += 1;
    }
    assert(x@ =~= y@);
    true
}

/// The views of a sequence of values, in order.
pub open spec fn views<T: View>(items: Seq<T>) -> Seq<T::V> {
    Seq::new(items.len(), |i: int| items[i]@)
}

/// The parts put one after another with `separator` between neighbours.
pub open spec fn joined(parts: Seq<Seq<char>>, separator: Seq<char>) -> Seq<char>
    decreases parts.len(),
{
    if parts.len() == 0 {
        Seq::empty()
    } else if parts.len() == 1 {
        parts[0]
    } else {
        joined(parts.drop_last(), separator) + separator + parts.last()
    }
}

/// Each part occurs in the joined text.
pub proof fn lemma_part_occurs_in_joined(parts: Seq<Seq<char>>, separator: Seq<char>, i: int)
    requires
        0 <= i < parts.len(),
    ensures
        occurs(joined(parts, separator), parts[i]),
    decreases parts.len(),
{
    if parts.len() == 1 {
        lemma_occurs_in_itself(parts[0]);
    } else {
        let head = joined(parts.drop_last(), separator);
        let whole = joined(parts, separator);
        if i == parts.len() - 1 {
            lemma_occurs_in_middle(head + separator, parts.last(), Seq::empty());
            assert(head + separator + parts.last() + Seq::<char>::empty() =~= whole);
        } else {
            lemma_part_occurs_in_joined(parts.drop_last(), separator, i);
            lemma_occurs_in_middle(Seq::empty(), head, separator + parts.last());
            assert(Seq::<char>::empty() + head + (separator + parts.last()) =~= whole);
            lemma_occurs_transitive(whole, head, parts[i]);
        }
    }
}

/// Joins strings with a separator between neighbours.
pub fn join(parts: &Vec<String>, separator: &str) -> (r: String)
    ensures
        r@ == joined(views(parts@), separator@),
{
    let mut out = String::new();
    let mut i: usize = 0;
    while i < parts.len()
        invariant
            i <= parts.len(),
            out@ == joined(views(parts@).take(i as int), separator@),
        decreases parts.len() - i,
    {
        let ghost before = views(parts@).take(i as int);
        let ghost after = views(parts@).take(i + 1);
        proof {
            assert(after.drop_last() =~= before);
            assert(after.last() == parts@[i as int]@);
        }
        if i > 0 {
            out.append(separator);
        }
        out.append(parts[i].as_str());
        proof {
            if i == 0 {
                assert(before.len() == 0);
                assert(out@ =~= after[0]);
            }
        }
        i += 1;
    }
    assert(views(parts@).take(parts.len() as int) =~= views(parts@));
    out
}

/// The character that writes a decimal digit.
pub open spec fn digit_char(digit: nat) -> char {
    if digit == 0 {
        '0'
    } else if digit == 1 {
        '1'
    } else if digit == 2 {
        '2'
    } else if digit == 3 {
        '3'
    } else if digit == 4 {
        '4'
    } else if digit == 5 {
        '5'
    } else if digit == 6 {
        '6'
    } else if digit == 7 {
        '7'
    } else if digit == 8 {
        '8'
    } else {
        '9'
    }
}

/// A natural number written in decimal, without sign or leading zeros.
pub open spec fn decimal_text(n: nat) -> Seq<char>
    decreases n,
{
    if n < 10 {
        seq![digit_char(n)]
    } else {
        decimal_text(n / 10) + seq![digit_char(n % 10)]
    }
}

fn digit_str(digit: u64) -> (r: &'static str)
    requires
        digit < 10,
    ensures
        r@ == seq![digit_char(digit as nat)],
{
    proof {
        reveal_strlit("0");
        reveal_strlit("1");
        reveal_strlit("2");
        reveal_strlit("3");
        reveal_strlit("4");
        reveal_strlit("5");
        reveal_strlit("6");
        reveal_strlit("7");
        reveal_strlit("8");
        reveal_strlit("9");
    }
    let r = if digit == 0 {
        "0"
    } else if digit == 1 {
        "1"
    } else if digit == 2 {
        "2"
    } else if digit == 3 {
        "3"
    } else if digit == 4 {
        "4"
    } else if digit == 5 {
        "5"
    } else if digit == 6 {
        "6"
    } else if digit == 7 {
        "7"
    } else if digit == 8 {
        "8"
    } else {
        "9"
    };
    assert(r@ =~= seq![digit_char(digit as nat)]);
    r
}

/// Writes a number in decimal.
pub fn decimal(n: u64) -> (r: String)
    ensures
        r@ == decimal_text(n as nat),
    decreases n,
{
    if n < 10 {
        String::from_str(digit_str(n))
    } else {
        let head = decimal(n / 10);
        head.concat(digit_str(n % 10))
    }
}

/// The value of a byte as a decimal digit.
pub open spec fn is_digit(byte: u8) -> bool {
    48 <= byte <= 57
}

/// The number that a run of decimal digits writes.
pub open spec fn digits_value(digits: Seq<u8>) -> nat
    decreases digits.len(),
{
    if digits.len() == 0 {
        0
    } else {
        digits_value(digits.drop_last()) * 10 + (digits.last() - 48) as nat
    }
}

/// The digits of a header value or other short number: the bytes themselves,
/// or what follows one leading plus sign.
pub open spec fn unsigned_digits(bytes: Seq<u8>) -> Seq<u8> {
    if bytes.len() > 0 && bytes[0] == 43 {
        bytes.subrange(1, bytes.len() as int)
    } else {
        bytes
    }
}

/// The 32-bit unsigned number that the bytes write in decimal, if they write
/// one: at least one digit, nothing but digits after an optional plus sign,
/// and a value that fits.
pub open spec fn unsigned_value(bytes: Seq<u8>) -> Option<u32> {
    let digits = unsigned_digits(bytes);
    if digits.len() > 0 && (forall|i: int| 0 <= i < digits.len() ==> is_digit(digits[i]))
        && digits_value(digits) <= u32::MAX {
        Some(digits_value(digits) as u32)
    } else {
        None
    }
}

/// A natural number written in decimal as bytes, without sign or leading
/// zeros.
pub open spec fn decimal_bytes(n: nat) -> Seq<u8>
    decreases n,
{
    if n < 10 {
        seq![(48 + n) as u8]
    } else {
        decimal_bytes(n / 10).push((48 + n % 10) as u8)
    }
}

/// The bytes of a number in decimal are digits, at least one, and write the
/// number.
pub proof fn lemma_decimal_bytes_write_the_number(n: nat)
    ensures
        decimal_bytes(n).len() > 0,
        forall|i: int| 0 <= i < decimal_bytes(n).len() ==> is_digit(#[trigger] decimal_bytes(n)[i]),
        digits_value(decimal_bytes(n)) == n,
    decreases n,
{
    if n < 10 {
        let digits = decimal_bytes(n);
        assert(digits.drop_last() =~= Seq::<u8>::empty());
        assert(digits_value(digits.drop_last()) == 0);
    } else {
        lemma_decimal_bytes_write_the_number(n / 10);
        let digits = decimal_bytes(n);
        assert(digits.drop_last() =~= decimal_bytes(n / 10));
    }
}

/// The bytes of a number in decimal are the characters of its text.
pub proof fn lemma_decimal_bytes_are_the_text(n: nat)
    ensures
        decimal_bytes(n).len() == decimal_text(n).len(),
        forall|i: int|
            0 <= i < decimal_bytes(n).len() ==> #[trigger] decimal_bytes(n)[i] == decimal_text(
                n,
            )[i] as u8,
    decreases n,
{
    if n >= 10 {
        lemma_decimal_bytes_are_the_text(n / 10);
    }
}

/// What is written of a 32-bit unsigned number is read as that number.
pub proof fn lemma_read_what_was_written(n: u32)
    ensures
        unsigned_value(decimal_bytes(n as nat)) == Some(n),
{
    lemma_decimal_bytes_write_the_number(n as nat);
    let digits = decimal_bytes(n as nat);
    assert(is_digit(digits[0]));
    assert(unsigned_digits(digits) == digits);
}

proof fn lemma_digits_value_grows(digits: Seq<u8>, k: int)
    requires
        0 <= k <= digits.len(),
        forall|i: int| 0 <= i < digits.len() ==> is_digit(digits[i]),
    ensures
        digits_value(digits.take(k)) <= digits_value(digits),
    decreases digits.len() - k,
{
    if k == digits.len() {
        assert(digits.take(k) =~= digits);
    } else {
        lemma_digits_value_grows(digits, k + 1);
        assert(digits.take(k + 1).drop_last() =~= digits.take(k));
    }
}

/// Reads a 32-bit unsigned decimal number.
pub fn parse_unsigned(bytes: &[u8]) -> (r: Option<u32>)
    ensures
        r == unsigned_value(bytes@),
{
    let start: usize = if bytes.len() > 0 && bytes[0] == 43 {
        1
    } else {
        0
    };
    let ghost digits = unsigned_digits(bytes@);
    assert(digits =~= bytes@.subrange(start as int, bytes@.len() as int));
    if start == bytes.len() {
        return None;
    }
    let mut value: u64 = 0;
    let mut i: usize = start;
    while i < bytes.len()
        invariant
            start <= i <= bytes@.len(),
            digits == bytes@.subrange(start as int, bytes@.len() as int),
            digits == unsigned_digits(bytes@),
            forall|j: int| 0 <= j < i - start ==> is_digit(digits[j]),
            value == digits_value(digits.take(i - start)),
            value <= u32::MAX,
        decreases bytes@.len() - i,
    {
        let byte = bytes[i];
        assert(byte == digits[i - start]);
        if byte < 48 || byte > 57 {
            assert(!is_digit(digits[i - start]));
            return None;
        }
        let ghost next = digits.take(i - start + 1);
        assert(next.drop_last() =~= digits.take(i - start));
        assert(next.last() == byte);
        let grown: u64 = value * 10 + (byte - 48) as u64;
        assert(digits_value(next) == grown);
        if grown > 0xffff_ffff {
            proof {
                if forall|j: int| 0 <= j < digits.len() ==> is_digit(digits[j]) {
                    lemma_digits_value_grows(digits, i - start + 1);
                }
            }
            return None;
        }
        value = grown;
        i += 1;
    }
    assert(digits.take(i - start) =~= digits);
    Some(value as u32)
}

} // verus!
