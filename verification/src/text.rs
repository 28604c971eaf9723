//! Joining the pieces of a transcript into the text that is shown.

use vstd::prelude::*;
use vstd::string::*;

verus! {

/// Whether `c` is white space: one of the characters that Unicode gives
/// the property `White_Space`.
pub open spec fn is_whitespace_char(c: char) -> bool {
    let code = c as u32;
    ||| 0x09 <= code <= 0x0D
    ||| code == 0x20
    ||| code == 0x85
    ||| code == 0xA0
    ||| code == 0x1680
    ||| 0x2000 <= code <= 0x200A
    ||| code == 0x2028
    ||| code == 0x2029
    ||| code == 0x202F
    ||| code == 0x205F
    ||| code == 0x3000
}

/// Whether `c` is white space.
pub fn is_whitespace(c: char) -> (white: bool)
    ensures
        white == is_whitespace_char(c),
{
    let code: u32 = c as u32;
    (0x09 <= code && code <= 0x0D) || code == 0x20 || code == 0x85 || code == 0xA0 || code
        == 0x1680 || (0x2000 <= code && code <= 0x200A) || code == 0x2028 || code == 0x2029 || code
        == 0x202F || code == 0x205F || code == 0x3000
}

/// `s` without the white space that it starts with.
pub open spec fn trim_start(s: Seq<char>) -> Seq<char>
    decreases s.len(),
{
    if s.len() > 0 && is_whitespace_char(s.first()) {
        trim_start(s.drop_first())
    } else {
        s
    }
}

/// `s` without the white space that it ends with.
pub open spec fn trim_end(s: Seq<char>) -> Seq<char>
    decreases s.len(),
{
    if s.len() > 0 && is_whitespace_char(s.last()) {
        trim_end(s.drop_last())
    } else {
        s
    }
}

/// `s` without the white space around it.
pub open spec fn trimmed(s: Seq<char>) -> Seq<char> {
    trim_end(trim_start(s))
}

/// The texts of `parts` one after the other.
pub open spec fn concat(parts: Seq<Seq<char>>) -> Seq<char>
    decreases parts.len(),
{
    if parts.len() == 0 {
        Seq::empty()
    } else {
        concat(parts.drop_last()) + parts.last()
    }
}

/// Trimming at the end shortens a text from the end only: what is left is a
/// prefix, and it is empty or ends with something other than white space.
pub proof fn lemma_trim_end(s: Seq<char>)
    ensures
        trim_end(s).len() <= s.len(),
        trim_end(s) == s.take(trim_end(s).len() as int),
        trim_end(s).len() > 0 ==> !is_whitespace_char(trim_end(s).last()),
        forall|i: int| trim_end(s).len() <= i < s.len() ==> is_whitespace_char(#[trigger] s[i]),
    decreases s.len(),
{
    if s.len() > 0 && is_whitespace_char(s.last()) {
        let shorter = s.drop_last();
        lemma_trim_end(shorter);
        let kept = trim_end(shorter).len() as int;
        assert(shorter.take(kept) =~= s.take(kept));
        assert forall|i: int| trim_end(s).len() <= i < s.len() implies is_whitespace_char(
            #[trigger] s[i],
        ) by {
            if i < s.len() - 1 {
                assert(s[i] == shorter[i]);
            }
        }
    } else {
        assert(s.take(s.len() as int) =~= s);
    }
}

/// Trimming at the start shortens a text from the start only: what is left
/// is a suffix, and it is empty or starts with something other than white
/// space.
pub proof fn lemma_trim_start(s: Seq<char>)
    ensures
        trim_start(s).len() <= s.len(),
        trim_start(s) == s.skip(s.len() - trim_start(s).len()),
        trim_start(s).len() > 0 ==> !is_whitespace_char(trim_start(s).first()),
        forall|i: int|
            0 <= i < s.len() - trim_start(s).len() ==> is_whitespace_char(#[trigger] s[i]),
    decreases s.len(),
{
    if s.len() > 0 && is_whitespace_char(s.first()) {
        let shorter = s.drop_first();
        lemma_trim_start(shorter);
        let dropped = shorter.len() - trim_start(shorter).len();
        assert(shorter.skip(dropped) =~= s.skip(dropped + 1));
        assert forall|i: int| 0 <= i < s.len() - trim_start(s).len() implies is_whitespace_char(
            #[trigger] s[i],
        ) by {
            if i > 0 {
                assert(s[i] == shorter[i - 1]);
            }
        }
    } else {
        assert(s.skip(0) =~= s);
    }
}

/// What trimming leaves is a stretch of the text with only white space
/// before and after it, and it neither starts nor ends with white space.
pub proof fn lemma_trimmed(s: Seq<char>)
    ensures
        exists|from: int, to: int|
            {
                &&& 0 <= from <= to <= s.len()
                &&& #[trigger] s.subrange(from, to) == trimmed(s)
                &&& forall|i: int| 0 <= i < from ==> is_whitespace_char(#[trigger] s[i])
                &&& forall|i: int| to <= i < s.len() ==> is_whitespace_char(#[trigger] s[i])
            },
        trimmed(s).len() > 0 ==> !is_whitespace_char(trimmed(s).first()) && !is_whitespace_char(
            trimmed(s).last(),
        ),
{
    let front = trim_start(s);
    lemma_trim_start(s);
    lemma_trim_end(front);
    let from = s.len() - front.len();
    let to = from + trimmed(s).len();
    assert(s.subrange(from, to) =~= trimmed(s));
    assert forall|i: int| to <= i < s.len() implies is_whitespace_char(#[trigger] s[i]) by {
        assert(s[i] == front[i - from]);
    }
    if trimmed(s).len() > 0 {
        assert(trimmed(s).first() == front.first());
    }
}

/// The text without the white space around it.
pub fn trim(text: &str) -> (result: String)
    ensures
        result@ == trimmed(text@),
{
    let len: usize = text.unicode_len();
    let mut start: usize = 0;
    assert(text@.subrange(0, len as int) =~= text@);
    loop
        invariant
            len == text@.len(),
            start <= len,
            trim_start(text@) == trim_start(text@.subrange(start as int, len as int)),
        ensures
            start <= len,
            trim_start(text@) == text@.subrange(start as int, len as int),
        decreases len - start,
    {
        if start >= len {
            break ;
        }
        let c = text.get_char(start);
        if !is_whitespace(c) {
            break ;
        }
        assert(text@.subrange(start as int, len as int).drop_first() =~= text@.subrange(
            start + 1,
            len as int,
        ));
        start += 1;
    }
    let mut end: usize = len;
    loop
        invariant
            len == text@.len(),
            start <= end <= len,
            trimmed(text@) == trim_end(text@.subrange(start as int, end as int)),
        ensures
            start <= end <= len,
            trimmed(text@) == text@.subrange(start as int, end as int),
        decreases end - start,
    {
        if end <= start {
            break ;
        }
        let c = text.get_char(end - 1);
        if !is_whitespace(c) {
            break ;
        }
        assert(text@.subrange(start as int, end as int).drop_last() =~= text@.subrange(
            start as int,
            end - 1,
        ));
        end -= 1;
    }
    String::from_str(text.substring_char(start, end))
}

/// The transcript of a job: the segments that the engine produced, joined
/// in the order given, without the white space around the whole. No
/// segments give the empty text.
pub fn assemble_text(segments: &Vec<String>) -> (text: String)
    ensures
        text@ == trimmed(concat(segments.deep_view())),
        segments@.len() == 0 ==> text@ == Seq::<char>::empty(),
{
    let mut joined = String::new();
    let mut index: usize = 0;
    while index < segments.len()
        invariant
            index <= segments@.len(),
            joined@ == concat(segments.deep_view().take(index as int)),
        decreases segments@.len() - index,
    {
        proof {
            let parts = segments.deep_view();
            assert(parts.take(index + 1).drop_last() =~= parts.take(index as int));
            assert(parts.take(index + 1).last() == segments@[index as int]@);
        }
        joined.append(segments[index].as_str());
        index += 1;
    }
    assert(segments.deep_view().take(index as int) =~= segments.deep_view());
    trim(joined.as_str())
}

/// The character that stands for the digit `d`.
pub open spec fn digit_char(d: nat) -> char {
    if d == 0 {
        '0'
    } else if d == 1 {
        '1'
    } else if d == 2 {
        '2'
    } else if d == 3 {
        '3'
    } else if d == 4 {
        '4'
    } else if d == 5 {
        '5'
    } else if d == 6 {
        '6'
    } else if d == 7 {
        '7'
    } else if d == 8 {
        '8'
    } else {
        '9'
    }
}

/// The number `n` written in decimal digits, without leading zeros.
pub open spec fn decimal_digits(n: nat) -> Seq<char>
    decreases n,
{
    if n < 10 {
        seq![digit_char(n)]
    } else {
        decimal_digits(n / 10).push(digit_char(n % 10))
    }
}

/// The digit `d` as a text of one character.
fn digit_text(d: u64) -> (text: &'static str)
    requires
        d < 10,
    ensures
        text@ == seq![digit_char(d as nat)],
{
    proof {
        reveal_strlit("0");
        reveal_strlit("1");
        reveal_strlit("2");
        reveal_strlit("3");
        reveal_strlit("4");
        reveal_strlit("5");
        reveal_strlit("6");
        reveal_strlit("7");
        reveal_strlit("8");
        reveal_strlit("9");
    }
    let text = if d == 0 {
        "0"
    } else if d == 1 {
        "1"
    } else if d == 2 {
        "2"
    } else if d == 3 {
        "3"
    } else if d == 4 {
        "4"
    } else if d == 5 {
        "5"
    } else if d == 6 {
        "6"
    } else if d == 7 {
        "7"
    } else if d == 8 {
        "8"
    } else {
        "9"
    };
    assert(text@ =~= seq![digit_char(d as nat)]);
    text
}

/// The number `n` written in decimal digits, without leading zeros.
pub fn decimal(n: u64) -> (text: String)
    ensures
        text@ == decimal_digits(n as nat),
    decreases n,
{
    if n < 10 {
        String::from_str(digit_text(n))
    } else {
        let mut text = decimal(n / 10);
        text.append(digit_text(n % 10));
        assert(text@ =~= decimal_digits(n as nat));
        text
    }
}

} // verus!
