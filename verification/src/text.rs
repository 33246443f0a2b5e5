//! Text helpers shared by the renderers: decimal numbers and joins.
use vstd::prelude::*;

verus! {

/// The decimal digits, indexed by their value.
pub open spec fn digit_char(d: int) -> char {
    "0123456789"@[d]
}

/// The decimal text of a natural number, without sign or leading zeros.
pub open spec fn decimal(n: nat) -> Seq<char>
    decreases n,
{
    if n < 10 {
        seq![digit_char(n as int)]
    } else {
        decimal(n / 10).push(digit_char((n % 10) as int))
    }
}

/// Renders `n` in decimal, as `format!("{}", n)` does for an unsigned integer.
pub fn decimal_string(n: u64) -> (s: String)
    ensures
        s@ == decimal(n as nat),
    decreases n,
{
    proof {
        reveal_strlit("0123456789");
    }
    let digits = "0123456789";
    let last = (n % 10) as usize;
    let d = digits.substring_char(last, last + 1);
    assert(d@ =~= seq![digit_char(last as int)]);
    if n < 10 {
        String::from_str(d)
    } else {
        let mut head = decimal_string(n / 10);
        head.append(d);
        head
    }
}

/// Whether two strings hold the same characters.
pub fn same_text(a: &str, b: &str) -> (r: bool)
    ensures
        r == (a@ == b@),
{
    a.to_owned() == b.to_owned()
}

/// The value of a sequence of decimal digit characters.
pub open spec fn digits_value(s: Seq<char>) -> nat
    decreases s.len(),
{
    if s.len() == 0 {
        0
    } else {
        digits_value(s.drop_last()) * 10 + ((s.last() as int) - ('0' as int)) as nat
    }
}

/// Whether every character is an ASCII decimal digit.
pub open spec fn all_digits(s: Seq<char>) -> bool {
    forall|i: int| 0 <= i < s.len() ==> '0' <= #[trigger] s[i] <= '9'
}

/// The digits of an unsigned decimal literal: the text without its optional
/// leading `+`.
pub open spec fn unsigned_digits(s: Seq<char>) -> Seq<char> {
    if s.len() > 0 && s[0] == '+' {
        s.drop_first()
    } else {
        s
    }
}

/// What parsing `s` as a `u64` gives: the value of an optional `+` followed
/// by one or more decimal digits, when it fits in 64 bits; nothing otherwise
/// (no sign but `+`, no spaces, no separators).
pub open spec fn parsed_u64(s: Seq<char>) -> Option<u64> {
    let d = unsigned_digits(s);
    if d.len() > 0 && all_digits(d) && digits_value(d) <= u64::MAX {
        Some(digits_value(d) as u64)
    } else {
        None
    }
}

/// Parses an unsigned decimal number the way `str::parse::<u64>` does.
pub fn parse_u64(s: &str) -> (r: Option<u64>)
    ensures
        r == parsed_u64(s@),
{
    let len = s.unicode_len();
    let mut i: usize = 0;
    if len > 0 && s.get_char(0) == '+' {
        i = 1;
    }
    let ghost d = unsigned_digits(s@);
    assert(d =~= s@.skip(i as int));
    if i == len {
        return None;
    }
    let mut value: u64 = 0;
    let mut overflow = false;
    let start = i;
    while i < len
        invariant
            start <= i <= len,
            len == s@.len(),
            start < len,
            d == s@.skip(start as int),
            d == unsigned_digits(s@),
            all_digits(d.take(i - start)),
            !overflow ==> value as nat == digits_value(d.take(i - start)),
            overflow ==> digits_value(d.take(i - start)) > u64::MAX,
        decreases len - i,
    {
        let c = s.get_char(i);
        if c < '0' || c > '9' {
            assert(d[i - start] == c);
            assert(!all_digits(d));
            return None;
        }
        let ghost k = (i - start) as int;
        assert(d.take(k + 1).drop_last() =~= d.take(k));
        assert(d.take(k + 1).last() == c);
        let digit = (c as u32 - '0' as u32) as u64;
        if !overflow {
            if value > (u64::MAX - digit) / 10 {
                overflow = true;
            } else {
                value = value * 10 + digit;
            }
        }
        assert(all_digits(d.take(k + 1)));
        i = i + 1;
    }
    assert(d.take(len - start) =~= d);
    if overflow {
        None
    } else {
        Some(value)
    }
}

/// Whether `c` has the Unicode `White_Space` property, as `char::is_whitespace`
/// decides: tab, line feed, vertical tab, form feed, carriage return, space,
/// next line, no-break space, ogham space mark, the spaces U+2000 to U+200A,
/// the line and paragraph separators, the narrow no-break space, the medium
/// mathematical space and the ideographic space.
pub open spec fn is_white_space(c: char) -> bool {
    let n = c as u32;
    (0x09 <= n <= 0x0d) || n == 0x20 || n == 0x85 || n == 0xa0 || n == 0x1680 || (0x2000 <= n
        <= 0x200a) || n == 0x2028 || n == 0x2029 || n == 0x202f || n == 0x205f || n == 0x3000
}

/// Decides white space for one character.
pub fn white_space(c: char) -> (r: bool)
    ensures
        r == is_white_space(c),
{
    let n = c as u32;
    (0x09 <= n && n <= 0x0d) || n == 0x20 || n == 0x85 || n == 0xa0 || n == 0x1680 || (0x2000 <= n
        && n <= 0x200a) || n == 0x2028 || n == 0x2029 || n == 0x202f || n == 0x205f || n == 0x3000
}

/// The position of the first character at or after `from` that is not white
/// space, or `s.len()`.
pub open spec fn first_non_space(s: Seq<char>, from: int) -> int
    decreases s.len() - from,
{
    if from >= s.len() {
        s.len() as int
    } else if !is_white_space(s[from]) {
        from
    } else {
        first_non_space(s, from + 1)
    }
}

/// One past the last character before `to` that is not white space, or 0.
pub open spec fn end_non_space(s: Seq<char>, to: int) -> int
    decreases to,
{
    if to <= 0 {
        0
    } else if !is_white_space(s[to - 1]) {
        to
    } else {
        end_non_space(s, to - 1)
    }
}

/// The text without its leading and trailing white space, as `str::trim`
/// gives it.
pub open spec fn trimmed(s: Seq<char>) -> Seq<char> {
    let start = first_non_space(s, 0);
    if start >= s.len() {
        Seq::empty()
    } else {
        s.subrange(start, end_non_space(s, s.len() as int))
    }
}

/// The text without its leading and trailing white space.
pub fn trim_text(s: &str) -> (r: String)
    ensures
        r@ == trimmed(s@),
{
    let len = s.unicode_len();
    let mut start: usize = 0;
    while start < len && white_space(s.get_char(start))
        invariant
            start <= len,
            len == s@.len(),
            first_non_space(s@, 0) == first_non_space(s@, start as int),
        decreases len - start,
    {
        start = start + 1;
    }
    if start == len {
        return String::new();
    }
    assert(first_non_space(s@, start as int) == start);
    let mut end: usize = len;
    while white_space(s.get_char(end - 1))
        invariant
            start < len,
            start < end <= len,
            len == s@.len(),
            start == first_non_space(s@, 0),
            !is_white_space(s@[start as int]),
            end_non_space(s@, len as int) == end_non_space(s@, end as int),
        decreases end,
    {
        end = end - 1;
    }
    assert(end_non_space(s@, end as int) == end);
    s.substring_char(start, end).to_owned()
}

/// The words of a text: its longest runs of characters that are not white
/// space, in order, as `str::split_whitespace` gives them. `word` is the run
/// read so far before position `i`, `done` the words finished before it.
pub open spec fn words_from(s: Seq<char>, i: int, word: Seq<char>, done: Seq<Seq<char>>) -> Seq<
    Seq<char>,
>
    decreases s.len() - i,
{
    if i >= s.len() {
        if word.len() > 0 {
            done.push(word)
        } else {
            done
        }
    } else if is_white_space(s[i]) {
        words_from(s, i + 1, Seq::empty(), if word.len() > 0 { done.push(word) } else { done })
    } else {
        words_from(s, i + 1, word.push(s[i]), done)
    }
}

/// The words of a text, separated by any amount of white space.
pub open spec fn whitespace_words(s: Seq<char>) -> Seq<Seq<char>> {
    words_from(s, 0, Seq::empty(), Seq::empty())
}

/// The texts of a list of strings.
pub open spec fn string_texts(v: Seq<String>) -> Seq<Seq<char>> {
    v.map_values(|w: String| w@)
}

/// Splits a text into its words, separated by any amount of white space.
pub fn split_words(s: &str) -> (r: Vec<String>)
    ensures
        string_texts(r@) == whitespace_words(s@),
{
    let len = s.unicode_len();
    let mut words: Vec<String> = Vec::new();
    let mut word = String::new();
    let mut i: usize = 0;
    assert(string_texts(words@) =~= Seq::<Seq<char>>::empty());
    while i < len
        invariant
            i <= len,
            len == s@.len(),
            whitespace_words(s@) == words_from(s@, i as int, word@, string_texts(words@)),
        decreases len - i,
    {
        let c = s.get_char(i);
        let ghost done = string_texts(words@);
        let ghost read = word@;
        assert(words_from(s@, i as int, read, done) == if is_white_space(c) {
            words_from(s@, i + 1, Seq::empty(), if read.len() > 0 { done.push(read) } else { done })
        } else {
            words_from(s@, i + 1, read.push(c), done)
        });
        if white_space(c) {
            if word.as_str().is_empty() {
                assert(word@ =~= Seq::<char>::empty());
            } else {
                let ghost before = words@;
                let ghost w = word@;
                words.push(word);
                assert(string_texts(words@) =~= string_texts(before).push(w));
                word = String::new();
            }
        } else {
            let piece = s.substring_char(i, i + 1);
            assert(piece@ =~= seq![c]);
            word.append(piece);
            assert(word@ =~= read.push(c));
        }
        i = i + 1;
    }
    if !word.as_str().is_empty() {
        let ghost before = words@;
        let ghost w = word@;
        words.push(word);
        assert(string_texts(words@) =~= string_texts(before).push(w));
    }
    words
}

} // verus!
