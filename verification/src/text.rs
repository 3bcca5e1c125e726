//! Comparing and collecting pieces of text.

use vstd::prelude::*;
use vstd::string::{StrSliceExecFns, StringExecFns, StringSliceAdditionalSpecFns};
use vstd::utf8::{encode_utf8, is_char_boundary};

verus! {

/// `==` of `str`: two string slices are equal where they hold the same
/// characters.
#[verifier::external_body]
pub(crate) fn str_eq(a: &str, b: &str) -> (r: bool)
    ensures
        r == (a@ == b@),
{
    a == b
}

/// The character of a decimal digit.
pub open spec fn digit(d: int) -> char {
    ((48 + d) as u8) as char
}

/// A natural number in decimal digits, without leading zeros.
pub open spec fn unsigned_text(n: nat) -> Seq<char>
    decreases n,
{
    if n < 10 {
        seq![digit(n as int)]
    } else {
        unsigned_text(n / 10).push(digit((n % 10) as int))
    }
}

/// A whole number in decimal digits, with a minus sign in front of a
/// negative one.
pub open spec fn integer_text(n: int) -> Seq<char> {
    if n < 0 {
        seq!['-'] + unsigned_text((-n) as nat)
    } else {
        unsigned_text(n as nat)
    }
}

/// `i64::to_string`: the number in decimal digits, without leading zeros,
/// behind a minus sign where it is negative.
#[verifier::external_body]
pub(crate) fn integer_to_text(n: i64) -> (r: String)
    ensures
        r@ == integer_text(n as int),
{
    n.to_string()
}

/// `u64::to_string`: the number in decimal digits, without leading zeros.
#[verifier::external_body]
pub(crate) fn unsigned_to_text(n: u64) -> (r: String)
    ensures
        r@ == unsigned_text(n as nat),
{
    n.to_string()
}

/// The text in upper case, as `str::to_uppercase` writes it.
pub uninterp spec fn uppercase_text(text: Seq<char>) -> Seq<char>;

/// `str::to_uppercase`: the text with every character in upper case. The
/// result is a function of the text; it is named, not described.
#[verifier::external_body]
pub(crate) fn to_uppercase(text: &str) -> (r: String)
    ensures
        r@ == uppercase_text(text@),
{
    text.to_uppercase()
}

/// The text in lower case, as `str::to_lowercase` writes it.
pub uninterp spec fn lowercase_text(text: Seq<char>) -> Seq<char>;

/// `str::to_lowercase`: the text with every character in lower case. The
/// result is a function of the text; it is named, not described.
#[verifier::external_body]
pub(crate) fn to_lowercase(text: &str) -> (r: String)
    ensures
        r@ == lowercase_text(text@),
{
    text.to_lowercase()
}

/// The first `n` characters of `text`, split at every `sep`: a character
/// that is not `sep` goes to the end of the last piece, and `sep` begins a
/// new piece. There is one more piece than there are separators.
pub open spec fn split_prefix(text: Seq<char>, sep: char, n: nat) -> Seq<Seq<char>>
    decreases n,
{
    if n == 0 {
        seq![Seq::empty()]
    } else {
        let before = split_prefix(text, sep, (n - 1) as nat);
        if text[n - 1] == sep {
            before.push(Seq::empty())
        } else {
            before.drop_last().push(before.last().push(text[n - 1]))
        }
    }
}

/// The pieces of `text` between the occurrences of `sep`, in order, empty
/// pieces included.
pub open spec fn split_text(text: Seq<char>, sep: char) -> Seq<Seq<char>> {
    split_prefix(text, sep, text.len())
}

/// The pieces of `text` between the occurrences of `sep`.
pub fn split_on(text: &str, sep: char) -> (r: Vec<String>)
    ensures
        texts(r@) == split_text(text@, sep),
{
    let n = text.unicode_len();
    let mut done: Vec<String> = Vec::new();
    let mut start: usize = 0;
    let mut i: usize = 0;
    proof {
        assert(texts(done@) =~= Seq::<Seq<char>>::empty());
        assert(text@.subrange(0, 0) =~= Seq::<char>::empty());
        assert(split_prefix(text@, sep, 0) =~= texts(done@).push(text@.subrange(0, 0)));
    }
    while i < n
        invariant
            start <= i <= n == text@.len(),
            split_prefix(text@, sep, i as nat) == texts(done@).push(
                text@.subrange(start as int, i as int),
            ),
        decreases n - i,
    {
        let ghost before = texts(done@);
        let ghost piece = text@.subrange(start as int, i as int);
        if text.get_char(i) == sep {
            done.push(text.substring_char(start, i).to_owned());
            start = i + 1;
            proof {
                assert(texts(done@) =~= before.push(piece));
                assert(text@.subrange(start as int, i + 1) =~= Seq::<char>::empty());
            }
        } else {
            proof {
                assert(before.push(piece).drop_last() =~= before);
                assert(piece.push(text@[i as int]) =~= text@.subrange(start as int, i + 1));
            }
        }
        i += 1;
    }
    let ghost before = texts(done@);
    done.push(text.substring_char(start, n).to_owned());
    proof {
        assert(texts(done@) =~= before.push(text@.subrange(start as int, n as int)));
    }
    done
}

/// The number that `str::parse::<u8>` reads from a text, if it reads one.
pub uninterp spec fn parsed_u8(text: Seq<char>) -> Option<u8>;

/// `str::parse::<u8>`: the number the text stands for, or nothing. The
/// result is a function of the text; it is named, not described.
#[verifier::external_body]
pub(crate) fn parse_u8(text: &str) -> (r: Option<u8>)
    ensures
        r == parsed_u8(text@),
{
    text.parse::<u8>().ok()
}

/// The number that `str::parse::<u64>` reads from a text, if it reads one.
pub uninterp spec fn parsed_u64(text: Seq<char>) -> Option<u64>;

/// `str::parse::<u64>`: the number the text stands for, or nothing. The
/// result is a function of the text; it is named, not described.
#[verifier::external_body]
pub(crate) fn parse_u64(text: &str) -> (r: Option<u64>)
    ensures
        r == parsed_u64(text@),
{
    text.parse::<u64>().ok()
}

/// The upper-case form of an ASCII letter; any other character itself.
pub open spec fn ascii_uppercase(c: char) -> char {
    if 'a' <= c <= 'z' {
        ((c as u32) - 32) as char
    } else {
        c
    }
}

/// An ASCII lower-case letter becomes its upper-case letter, every other
/// character stays as it is.
pub(crate) fn to_ascii_uppercase(c: char) -> (r: char)
    ensures
        r == ascii_uppercase(c),
{
    if 'a' <= c && c <= 'z' {
        let code: u8 = c as u8;
        (code - 32) as char
    } else {
        c
    }
}

/// Whether `needle` stands somewhere in `hay`.
pub open spec fn contains_piece(hay: Seq<char>, needle: Seq<char>) -> bool {
    exists|i: int|
        0 <= i && i + needle.len() <= hay.len() && #[trigger] hay.subrange(i, i + needle.len())
            == needle
}

/// `str::contains` on a string: whether the second text occurs in the first.
#[verifier::external_body]
pub(crate) fn contains_str(hay: &str, needle: &str) -> (r: bool)
    ensures
        r == contains_piece(hay@, needle@),
{
    hay.contains(needle)
}

/// Whether `text` is one of `list`.
pub open spec fn listed(list: Seq<String>, text: Seq<char>) -> bool {
    exists|i: int| 0 <= i < list.len() && (#[trigger] list[i])@ == text
}

/// Whether `text` is one of `list`.
pub fn contains_text(list: &Vec<String>, text: &str) -> (r: bool)
    ensures
        r == listed(list@, text@),
{
    let mut i: usize = 0;
    while i < list.len()
        invariant
            i <= list.len(),
            forall|j: int| 0 <= j < i ==> (#[trigger] list@[j])@ != text@,
        decreases list.len() - i,
    {
        if str_eq(list[i].as_str(), text) {
            return true;
        }
        i += 1;
    }
    false
}

/// The texts of a list of strings.
pub open spec fn texts(list: Seq<String>) -> Seq<Seq<char>> {
    list.map_values(|s: String| s@)
}

/// A copy of a list of strings.
pub fn clone_texts(list: &Vec<String>) -> (r: Vec<String>)
    ensures
        r@ == list@,
{
    let mut out: Vec<String> = Vec::new();
    let mut i: usize = 0;
    while i < list.len()
        invariant
            i <= list.len(),
            out@ == list@.take(i as int),
        decreases list.len() - i,
    {
        out.push(list[i].clone());
        proof {
            assert(list@.take(i + 1) == list@.take(i as int).push(list@[i as int]));
        }
        i += 1;
    }
    proof {
        assert(list@.take(list@.len() as int) == list@);
    }
    out
}

/// `text` where it takes at most `max_len` bytes; else its first
/// `max_len - 3` bytes and three dots.
pub fn truncate_string(text: &str, max_len: usize) -> (r: String)
    requires
        encode_utf8(text@).len() > max_len ==> max_len >= 3 && is_char_boundary(
            encode_utf8(text@),
            max_len - 3,
        ),
    ensures
        encode_utf8(text@).len() <= max_len ==> r@ == text@,
        encode_utf8(text@).len() > max_len ==> exists|head: Seq<char>|
            encode_utf8(head) == encode_utf8(text@).subrange(0, max_len - 3) && r@ == #[trigger] (
            head + "..."@),
{
    if text.as_bytes().len() <= max_len {
        text.to_owned()
    } else {
        let (head, _) = text.split_at(max_len - 3);
        let r = head.to_owned().concat("...");
        proof {
            assert(encode_utf8(head@) == encode_utf8(text@).subrange(0, max_len - 3));
            assert(r@ == head@ + "..."@);
        }
        r
    }
}

/// The last character boundary of `bytes` at or before `at`; zero where
/// there is none after the start.
pub open spec fn last_boundary(bytes: Seq<u8>, at: int) -> int
    decreases at,
{
    if at <= 0 {
        0
    } else if is_char_boundary(bytes, at) {
        at
    } else {
        last_boundary(bytes, at - 1)
    }
}

/// Where a text that is too long for `max_len` bytes is cut: at the last
/// character boundary that leaves room for three dots.
pub open spec fn cut_point(bytes: Seq<u8>, max_len: usize) -> int {
    last_boundary(
        bytes,
        if max_len >= 3 {
            max_len - 3
        } else {
            0
        },
    )
}

/// `text` where it takes at most `max_len` bytes; else what of it comes
/// before the cut point, and three dots. As `truncate_string`, but never in
/// the middle of a character.
pub fn clip(text: &str, max_len: usize) -> (r: String)
    ensures
        encode_utf8(text@).len() <= max_len ==> r@ == text@,
        encode_utf8(text@).len() > max_len ==> exists|head: Seq<char>|
            encode_utf8(head) == encode_utf8(text@).subrange(
                0,
                cut_point(encode_utf8(text@), max_len),
            ) && r@ == #[trigger] (head + "..."@),
{
    let len = text.as_bytes().len();
    if len <= max_len {
        return text.to_owned();
    }
    let start: usize = if max_len >= 3 {
        max_len - 3
    } else {
        0
    };
    let mut at: usize = start;
    proof {
        vstd::utf8::encode_utf8_valid_utf8(text@);
    }
    while at > 0 && !text.is_char_boundary(at)
        invariant
            at <= start <= len,
            len == encode_utf8(text@).len(),
            vstd::utf8::valid_utf8(encode_utf8(text@)),
            last_boundary(encode_utf8(text@), start as int) == last_boundary(
                encode_utf8(text@),
                at as int,
            ),
        decreases at,
    {
        at -= 1;
    }
    proof {
        assert(is_char_boundary(encode_utf8(text@), at as int));
        assert(last_boundary(encode_utf8(text@), at as int) == at);
    }
    let (head, _) = text.split_at(at);
    let r = head.to_owned().concat("...");
    proof {
        assert(encode_utf8(head@) == encode_utf8(text@).subrange(0, at as int));
        assert(r@ == head@ + "..."@);
    }
    r
}

} // verus!
