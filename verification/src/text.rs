//! Small facts about text: white space, trimming and decimal numerals.

use vstd::prelude::*;

verus! {

/// Whether `c` is white space, as Unicode defines it.
pub open spec fn is_space(c: char) -> bool {
    let n = c as u32;
    ||| 0x09 <= n <= 0x0d
    ||| n == 0x20
    ||| n == 0x85
    ||| n == 0xa0
    ||| n == 0x1680
    ||| 0x2000 <= n <= 0x200a
    ||| n == 0x2028
    ||| n == 0x2029
    ||| n == 0x202f
    ||| n == 0x205f
    ||| n == 0x3000
}

/// Whether nothing but white space stands in `s`: what is left of such a text
/// once the white space at both ends is taken away is empty.
pub open spec fn is_blank(s: Seq<char>) -> bool {
    forall|i: int| 0 <= i < s.len() ==> is_space(#[trigger] s[i])
}

/// Whether `c` is white space.
pub fn char_is_space(c: char) -> (r: bool)
    ensures
        r == is_space(c),
{
    let n: u32 = c as u32;
    (0x09 <= n && n <= 0x0d) || n == 0x20 || n == 0x85 || n == 0xa0 || n == 0x1680 || (0x2000 <= n
        && n <= 0x200a) || n == 0x2028 || n == 0x2029 || n == 0x202f || n == 0x205f || n == 0x3000
}

/// How many characters of white space `s` begins with.
pub open spec fn leading(s: Seq<char>) -> nat
    decreases s.len(),
{
    if s.len() > 0 && is_space(s.first()) {
        1 + leading(s.drop_first())
    } else {
        0
    }
}

/// How many characters of white space `s` ends with.
pub open spec fn trailing(s: Seq<char>) -> nat
    decreases s.len(),
{
    if s.len() > 0 && is_space(s.last()) {
        1 + trailing(s.drop_last())
    } else {
        0
    }
}

/// What is left of `s` once the white space at both ends is taken away.
pub open spec fn trimmed(s: Seq<char>) -> Seq<char> {
    if is_blank(s) {
        Seq::empty()
    } else {
        s.subrange(leading(s) as int, s.len() - trailing(s))
    }
}

/// The white space that `s` begins with ends at its first character that is
/// none.
pub proof fn lemma_leading(s: Seq<char>)
    ensures
        leading(s) <= s.len(),
        forall|i: int| 0 <= i < leading(s) ==> is_space(#[trigger] s[i]),
        leading(s) < s.len() ==> !is_space(s[leading(s) as int]),
    decreases s.len(),
{
    if s.len() > 0 && is_space(s.first()) {
        let rest = s.drop_first();
        lemma_leading(rest);
        assert forall|i: int| 0 <= i < leading(s) implies is_space(#[trigger] s[i]) by {
            if i > 0 {
                assert(s[i] == rest[i - 1]);
            }
        }
    }
}

/// The white space that `s` ends with begins after its last character that
/// is none.
pub proof fn lemma_trailing(s: Seq<char>)
    ensures
        trailing(s) <= s.len(),
        forall|i: int| s.len() - trailing(s) <= i < s.len() ==> is_space(#[trigger] s[i]),
        trailing(s) < s.len() ==> !is_space(s[s.len() - trailing(s) - 1]),
    decreases s.len(),
{
    if s.len() > 0 && is_space(s.last()) {
        let rest = s.drop_last();
        lemma_trailing(rest);
        assert forall|i: int| s.len() - trailing(s) <= i < s.len() implies is_space(
            #[trigger] s[i],
        ) by {
            if i < s.len() - 1 {
                assert(s[i] == rest[i]);
            }
        }
    }
}

/// A text is blank exactly if nothing is left of it once it is trimmed. What
/// is left of any other text neither begins nor ends with white space.
pub proof fn lemma_trimmed(s: Seq<char>)
    ensures
        is_blank(s) <==> trimmed(s).len() == 0,
        !is_blank(s) ==> {
            &&& leading(s) + trailing(s) < s.len()
            &&& !is_space(trimmed(s).first())
            &&& !is_space(trimmed(s).last())
        },
{
    lemma_leading(s);
    lemma_trailing(s);
    if !is_blank(s) {
        let k = choose|k: int| 0 <= k < s.len() && !is_space(#[trigger] s[k]);
        assert(leading(s) <= k < s.len() - trailing(s));
    }
}

/// What is left of `s` once the white space at both ends is taken away.
pub fn trim(s: &str) -> (r: String)
    ensures
        r@ == trimmed(s@),
{
    let length = s.unicode_len();
    let mut start: Option<usize> = None;
    let mut end: usize = 0;
    let mut i: usize = 0;
    for c in it: s.chars()
        invariant
            it.seq() == s@,
            length == s@.len(),
            i == it.index(),
            i <= length,
            match start {
                Some(first) => {
                    &&& first < end <= i
                    &&& !is_space(s@[first as int])
                    &&& !is_space(s@[end - 1])
                    &&& forall|j: int| 0 <= j < first ==> is_space(#[trigger] s@[j])
                    &&& forall|j: int| end <= j < i ==> is_space(#[trigger] s@[j])
                },
                None => forall|j: int| 0 <= j < i ==> is_space(#[trigger] s@[j]),
            },
    {
        if !char_is_space(c) {
            if start.is_none() {
                start = Some(i);
            }
            end = i + 1;
        }
        i += 1;
    }
    match start {
        Some(first) => {
            proof {
                lemma_leading(s@);
                lemma_trailing(s@);
                assert(leading(s@) == first);
                assert(s@.len() - trailing(s@) == end);
            }
            String::from_str(s.substring_char(first, end))
        },
        None => String::new(),
    }
}

/// The character that writes the digit `d`.
pub open spec fn digit(d: nat) -> char
    recommends
        d < 10,
{
    if d == 0 {
        '0'
    } else if d == 1 {
        '1'
    } else if d == 2 {
        '2'
    } else if d == 3 {
        '3'
    } else if d == 4 {
        '4'
    } else if d == 5 {
        '5'
    } else if d == 6 {
        '6'
    } else if d == 7 {
        '7'
    } else if d == 8 {
        '8'
    } else {
        '9'
    }
}

/// The decimal numeral of `n`, without sign and without leading zeros.
pub open spec fn decimal(n: nat) -> Seq<char>
    decreases n,
{
    if n < 10 {
        seq![digit(n)]
    } else {
        decimal(n / 10).push(digit(n % 10))
    }
}

/// The text that writes the digit `d`.
fn digit_text(d: u16) -> (r: &'static str)
    requires
        d < 10,
    ensures
        r@ == seq![digit(d as nat)],
{
    proof {
        reveal_strlit("0");
        reveal_strlit("1");
        reveal_strlit("2");
        reveal_strlit("3");
        reveal_strlit("4");
        reveal_strlit("5");
        reveal_strlit("6");
        reveal_strlit("7");
        reveal_strlit("8");
        reveal_strlit("9");
    }
    if d == 0 {
        "0"
    } else if d == 1 {
        "1"
    } else if d == 2 {
        "2"
    } else if d == 3 {
        "3"
    } else if d == 4 {
        "4"
    } else if d == 5 {
        "5"
    } else if d == 6 {
        "6"
    } else if d == 7 {
        "7"
    } else if d == 8 {
        "8"
    } else {
        "9"
    }
}

/// Writes `n` as a decimal numeral.
pub fn decimal_text(n: u16) -> (r: String)
    ensures
        r@ == decimal(n as nat),
    decreases n,
{
    if n < 10 {
        String::from_str(digit_text(n))
    } else {
        let mut r = decimal_text(n / 10);
        r.append(digit_text(n % 10));
        r
    }
}

} // verus!
