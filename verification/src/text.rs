//! Character and string building blocks: whitespace trimming, equality,
//! decimal formatting, and conversion between `String` and `Vec<char>`.

use vstd::prelude::*;
use vstd::std_specs::iter::IteratorSpec;
use vstd::string::StringExecFns;

verus! {

/// The characters with the Unicode `White_Space` property, as used by
/// `char::is_whitespace`.
pub open spec fn is_ws_char(c: char) -> bool {
    ||| c == ' '
    ||| c == '\t'
    ||| c == '\n'
    ||| c == '\u{0b}'
    ||| c == '\u{0c}'
    ||| c == '\r'
    ||| c == '\u{85}'
    ||| c == '\u{a0}'
    ||| c == '\u{1680}'
    ||| (0x2000 <= c as u32 && c as u32 <= 0x200a)
    ||| c == '\u{2028}'
    ||| c == '\u{2029}'
    ||| c == '\u{202f}'
    ||| c == '\u{205f}'
    ||| c == '\u{3000}'
}

pub fn is_ws(c: char) -> (r: bool)
    ensures
        r == is_ws_char(c),
{
    let n = c as u32;
    n == 0x20 || n == 0x09 || n == 0x0a || n == 0x0b || n == 0x0c || n == 0x0d || n == 0x85
        || n == 0xa0 || n == 0x1680 || (0x2000 <= n && n <= 0x200a) || n == 0x2028 || n == 0x2029
        || n == 0x202f || n == 0x205f || n == 0x3000
}

/// Whether two string slices hold the same characters.
pub fn str_eq(a: &str, b: &str) -> (r: bool)
    ensures
        r == (a@ == b@),
{
    let sa = String::from_str(a);
    let sb = String::from_str(b);
    sa == sb
}

/// Relies on `String`'s `FromIterator<char>` impl: collecting a sequence of
/// characters yields the string with exactly those characters in order.
#[verifier::external_body]
pub(crate) fn chars_to_string(v: &Vec<char>) -> (r: String)
    ensures
        r@ == v@,
{
    v.iter().collect()
}

/// The characters of a string slice, gathered into a vector.
pub fn str_to_chars(s: &str) -> (r: Vec<char>)
    ensures
        r@ == s@,
{
    let mut out: Vec<char> = Vec::new();
    let mut it = s.chars();
    proof {
        vstd::string::axiom_spec_iter(s);
    }
    loop
        invariant_except_break
            it.obeys_prophetic_iter_laws(),
            it.decrease() is Some,
            out@ + it.remaining() == s@,
        ensures
            out@ == s@,
        decreases it.decrease()->0,
    {
        match it.next() {
            Some(c) => {
                out.push(c);
            }
            None => {
                proof {
                    assert(it.remaining().len() == 0);
                    assert(out@ =~= s@);
                }
                break;
            }
        }
    }
    out
}

/// The sequence without its leading whitespace.
pub open spec fn trim_start_spec(s: Seq<char>) -> Seq<char>
    decreases s.len(),
{
    if s.len() > 0 && is_ws_char(s[0]) {
        trim_start_spec(s.drop_first())
    } else {
        s
    }
}

/// The sequence without its trailing whitespace.
pub open spec fn trim_end_spec(s: Seq<char>) -> Seq<char>
    decreases s.len(),
{
    if s.len() > 0 && is_ws_char(s[s.len() - 1]) {
        trim_end_spec(s.drop_last())
    } else {
        s
    }
}

/// The sequence without leading and trailing whitespace.
pub open spec fn trimmed(s: Seq<char>) -> Seq<char> {
    trim_end_spec(trim_start_spec(s))
}

proof fn lemma_trim_start_skip(s: Seq<char>, i: int)
    requires
        0 <= i <= s.len(),
        forall|j: int| 0 <= j < i ==> is_ws_char(s[j]),
    ensures
        trim_start_spec(s) == trim_start_spec(s.skip(i)),
    decreases i,
{
    if i == 0 {
        assert(s.skip(0) =~= s);
    } else {
        assert(is_ws_char(s[0]));
        assert(trim_start_spec(s) == trim_start_spec(s.drop_first()));
        assert(s.drop_first() =~= s.skip(1));
        lemma_trim_start_skip(s.skip(1), i - 1);
        assert(s.skip(1).skip(i - 1) =~= s.skip(i));
    }
}

proof fn lemma_trim_end_take(s: Seq<char>, k: int)
    requires
        0 <= k <= s.len(),
        forall|j: int| k <= j < s.len() ==> is_ws_char(s[j]),
    ensures
        trim_end_spec(s) == trim_end_spec(s.take(k)),
    decreases s.len() - k,
{
    if k == s.len() {
        assert(s.take(k) =~= s);
    } else {
        assert(is_ws_char(s[s.len() - 1]));
        assert(trim_end_spec(s) == trim_end_spec(s.drop_last()));
        assert(s.drop_last() =~= s.take(s.len() - 1));
        lemma_trim_end_take(s.take(s.len() - 1), k);
        assert(s.take(s.len() - 1).take(k) =~= s.take(k));
    }
}

/// The characters of `v` without leading and trailing whitespace.
pub fn trimmed_chars(v: &Vec<char>) -> (r: Vec<char>)
    ensures
        r@ == trimmed(v@),
{
    let n = v.len();
    let mut i: usize = 0;
    while i < n && is_ws(v[i])
        invariant
            0 <= i <= n == v.len(),
            forall|j: int| 0 <= j < i ==> is_ws_char(v@[j]),
        decreases n - i,
    {
        i = i + 1;
    }
    proof {
        lemma_trim_start_skip(v@, i as int);
        if i < n {
            assert(v@.skip(i as int)[0] == v@[i as int]);
            assert(trim_start_spec(v@.skip(i as int)) == v@.skip(i as int));
        } else {
            assert(v@.skip(i as int).len() == 0);
            assert(trim_start_spec(v@.skip(i as int)) == v@.skip(i as int));
        }
    }
    let mut end: usize = n;
    while end > i && is_ws(v[end - 1])
        invariant
            i <= end <= n == v.len(),
            forall|j: int| end <= j < n ==> is_ws_char(v@[j]),
        decreases end,
    {
        end = end - 1;
    }
    let ghost tail = v@.skip(i as int);
    proof {
        assert(forall|j: int| 0 <= j < tail.len() ==> tail[j] == v@[i + j]);
        lemma_trim_end_take(tail, end - i);
        if end > i {
            let cut = tail.take(end - i);
            assert(cut[cut.len() - 1] == v@[end - 1]);
            assert(trim_end_spec(cut) == cut);
        } else {
            assert(trim_end_spec(tail.take(0)) == tail.take(0));
        }
    }
    let mut out: Vec<char> = Vec::new();
    let mut j: usize = i;
    while j < end
        invariant
            i <= j <= end <= v.len(),
            out@ =~= v@.subrange(i as int, j as int),
        decreases end - j,
    {
        out.push(v[j]);
        j = j + 1;
    }
    proof {
        assert(out@ =~= tail.take(end - i));
    }
    out
}

/// The string without leading and trailing whitespace.
pub fn str_trim(s: &str) -> (r: String)
    ensures
        r@ == trimmed(s@),
{
    let chars = str_to_chars(s);
    let t = trimmed_chars(&chars);
    chars_to_string(&t)
}

/// Whether a string holds nothing but whitespace.
pub fn is_blank(s: &str) -> (r: bool)
    ensures
        r == (trimmed(s@).len() == 0),
{
    let chars = str_to_chars(s);
    let t = trimmed_chars(&chars);
    t.len() == 0
}

pub open spec fn digit_char(d: int) -> char {
    if d == 0 { '0' }
    else if d == 1 { '1' }
    else if d == 2 { '2' }
    else if d == 3 { '3' }
    else if d == 4 { '4' }
    else if d == 5 { '5' }
    else if d == 6 { '6' }
    else if d == 7 { '7' }
    else if d == 8 { '8' }
    else { '9' }
}

/// The decimal digits of a natural number, most significant first.
pub open spec fn dec_nat(n: nat) -> Seq<char>
    decreases n,
{
    if n < 10 {
        seq![digit_char(n as int)]
    } else {
        dec_nat(n / 10) + seq![digit_char((n % 10) as int)]
    }
}

/// The decimal text of an integer, with a leading minus sign when negative.
pub open spec fn dec_int(n: int) -> Seq<char> {
    if n < 0 {
        seq!['-'] + dec_nat((-n) as nat)
    } else {
        dec_nat(n as nat)
    }
}

fn digit_char_exec(d: u64) -> (c: char)
    requires
        d < 10,
    ensures
        c == digit_char(d as int),
{
    match d {
        0 => '0',
        1 => '1',
        2 => '2',
        3 => '3',
        4 => '4',
        5 => '5',
        6 => '6',
        7 => '7',
        8 => '8',
        _ => '9',
    }
}

pub fn u64_to_string(n: u64) -> (r: String)
    ensures
        r@ == dec_nat(n as nat),
{
    let mut v: Vec<char> = Vec::new();
    if n < 10 {
        v.push(digit_char_exec(n));
    } else {
        let mut m: u64 = n;
        while m > 0
            invariant
                if m > 0 {
                    dec_nat(n as nat) == dec_nat(m as nat) + v@
                } else {
                    dec_nat(n as nat) == v@
                },
            decreases m,
        {
            let ghost prev = v@;
            let d = m % 10;
            v.insert(0, digit_char_exec(d));
            proof {
                if m >= 10 {
                    assert(dec_nat(m as nat) == dec_nat((m / 10) as nat) + seq![
                        digit_char((m % 10) as int),
                    ]);
                    assert(dec_nat(m as nat) + prev =~= dec_nat((m / 10) as nat) + (seq![
                        digit_char((m % 10) as int),
                    ] + prev));
                } else {
                    assert(dec_nat(m as nat) == seq![digit_char(m as int)]);
                }
            }
            m = m / 10;
        }
    }
    assert(v@ =~= dec_nat(n as nat));
    chars_to_string(&v)
}

pub fn i64_to_string(n: i64) -> (r: String)
    ensures
        r@ == dec_int(n as int),
{
    if n >= 0 {
        u64_to_string(n as u64)
    } else {
        let mag: u64 = ((-(n + 1)) as u64) + 1;
        assert(mag as int == -(n as int));
        let mut s = String::from_str("-");
        let digits = u64_to_string(mag);
        s.append(digits.as_str());
        proof {
            reveal_strlit("-");
            assert(s@ =~= dec_int(n as int));
        }
        s
    }
}

/// The pieces joined with the separator between each adjacent pair.
pub open spec fn join_views(items: Seq<Seq<char>>, sep: Seq<char>) -> Seq<char>
    decreases items.len(),
{
    if items.len() == 0 {
        Seq::empty()
    } else if items.len() == 1 {
        items[0]
    } else {
        join_views(items.drop_last(), sep) + sep + items.last()
    }
}

/// The view of every string in the list.
pub open spec fn string_views(items: Seq<String>) -> Seq<Seq<char>> {
    items.map(|i: int, s: String| s@)
}

/// Joins the strings with the separator between each adjacent pair.
pub fn join_strings(items: &Vec<String>, sep: &str) -> (r: String)
    ensures
        r@ == join_views(string_views(items@), sep@),
{
    let mut s = String::new();
    let mut i: usize = 0;
    proof {
        assert(string_views(items@).take(0).len() == 0);
    }
    while i < items.len()
        invariant
            0 <= i <= items.len(),
            s@ == join_views(string_views(items@).take(i as int), sep@),
        decreases items.len() - i,
    {
        let ghost views = string_views(items@);
        proof {
            assert(views.take(i + 1).drop_last() =~= views.take(i as int));
            assert(views.take(i + 1).last() == views[i as int]);
            assert(views[i as int] == items@[i as int]@);
        }
        if i > 0 {
            s.append(sep);
        }
        s.append(items[i].as_str());
        i = i + 1;
    }
    proof {
        assert(string_views(items@).take(items@.len() as int) =~= string_views(items@));
    }
    s
}

/// Two-digit zero-padded decimal text, for values below 100.
pub open spec fn pad2_spec(n: int) -> Seq<char> {
    if n < 10 {
        seq!['0'] + dec_nat(n as nat)
    } else {
        dec_nat(n as nat)
    }
}

pub fn u64_pad2(n: u64) -> (r: String)
    requires
        n < 100,
    ensures
        r@ == pad2_spec(n as int),
{
    if n < 10 {
        let mut s = String::from_str("0");
        let digits = u64_to_string(n);
        s.append(digits.as_str());
        proof {
            reveal_strlit("0");
            assert(s@ =~= pad2_spec(n as int));
        }
        s
    } else {
        u64_to_string(n)
    }
}

/// Decimal text of a natural number, zero-padded to at least three digits.
pub open spec fn zpad3(n: nat) -> Seq<char> {
    if n >= 100 {
        dec_nat(n)
    } else if n >= 10 {
        seq!['0'] + dec_nat(n)
    } else {
        seq!['0', '0'] + dec_nat(n)
    }
}

/// Year text at width four, signed like Rust's `{:04}` formatting: the sign
/// counts toward the width, so `-1` becomes `-001`.
pub open spec fn year4_spec(y: int) -> Seq<char> {
    if y < 0 {
        seq!['-'] + zpad3((-y) as nat)
    } else if y >= 1000 {
        dec_nat(y as nat)
    } else if y >= 100 {
        seq!['0'] + dec_nat(y as nat)
    } else if y >= 10 {
        seq!['0', '0'] + dec_nat(y as nat)
    } else {
        seq!['0', '0', '0'] + dec_nat(y as nat)
    }
}

fn u64_zpad3(n: u64) -> (r: String)
    ensures
        r@ == zpad3(n as nat),
{
    let digits = u64_to_string(n);
    if n >= 100 {
        digits
    } else if n >= 10 {
        let mut s = String::from_str("0");
        s.append(digits.as_str());
        proof {
            reveal_strlit("0");
            assert(s@ =~= zpad3(n as nat));
        }
        s
    } else {
        let mut s = String::from_str("00");
        s.append(digits.as_str());
        proof {
            reveal_strlit("00");
            assert(s@ =~= zpad3(n as nat));
        }
        s
    }
}

pub fn year4(y: i64) -> (r: String)
    ensures
        r@ == year4_spec(y as int),
{
    if y >= 0 {
        if y >= 1000 {
            u64_to_string(y as u64)
        } else if y >= 100 {
            let mut s = String::from_str("0");
            let digits = u64_to_string(y as u64);
            s.append(digits.as_str());
            proof {
                reveal_strlit("0");
                assert(s@ =~= year4_spec(y as int));
            }
            s
        } else if y >= 10 {
            let mut s = String::from_str("00");
            let digits = u64_to_string(y as u64);
            s.append(digits.as_str());
            proof {
                reveal_strlit("00");
                assert(s@ =~= year4_spec(y as int));
            }
            s
        } else {
            let mut s = String::from_str("000");
            let digits = u64_to_string(y as u64);
            s.append(digits.as_str());
            proof {
                reveal_strlit("000");
                assert(s@ =~= year4_spec(y as int));
            }
            s
        }
    } else {
        let mag: u64 = ((-(y + 1)) as u64) + 1;
        assert(mag as int == -(y as int));
        let mut s = String::from_str("-");
        let padded = u64_zpad3(mag);
        s.append(padded.as_str());
        proof {
            reveal_strlit("-");
            assert(s@ =~= year4_spec(y as int));
        }
        s
    }
}

} // verus!
