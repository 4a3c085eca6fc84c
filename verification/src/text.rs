//! Facts about text: white space, lines, UTF-8.
use vstd::prelude::*;
use vstd::std_specs::iter::IteratorSpec;
use vstd::string::*;
use vstd::utf8::*;

verus! {

/// The characters with the Unicode property `White_Space`.
pub open spec fn is_white_space(c: char) -> bool {
    let n = c as u32;
    ||| 0x9 <= n <= 0xd
    ||| n == 0x20
    ||| n == 0x85
    ||| n == 0xa0
    ||| n == 0x1680
    ||| 0x2000 <= n <= 0x200a
    ||| n == 0x2028
    ||| n == 0x2029
    ||| n == 0x202f
    ||| n == 0x205f
    ||| n == 0x3000
}

/// `s` without the white space that it starts with.
pub open spec fn trimmed_start(s: Seq<char>) -> Seq<char>
    decreases s.len(),
{
    if s.len() > 0 && is_white_space(s.first()) {
        trimmed_start(s.drop_first())
    } else {
        s
    }
}

/// `s` without the white space that it ends with.
pub open spec fn trimmed_end(s: Seq<char>) -> Seq<char>
    decreases s.len(),
{
    if s.len() > 0 && is_white_space(s.last()) {
        trimmed_end(s.drop_last())
    } else {
        s
    }
}

/// `s` without the white space at either end.
pub open spec fn trimmed(s: Seq<char>) -> Seq<char> {
    trimmed_end(trimmed_start(s))
}

/// `str::trim` takes away the white space at both ends, where white space is
/// what Unicode calls `White_Space`.
pub assume_specification[ str::trim ](s: &str) -> (res: &str)
    ensures
        res@ == trimmed(s@),
;

/// Where the first `\n` of `s` stands, or the length of `s`.
pub open spec fn newline_position(s: Seq<char>) -> int
    decreases s.len(),
{
    if s.len() == 0 || s.first() == '\n' {
        0
    } else {
        1 + newline_position(s.drop_first())
    }
}

/// The first line of `s`, without the `\n` or `\r\n` that ends it.
pub open spec fn line_one(s: Seq<char>) -> Seq<char> {
    let n = newline_position(s);
    if 0 < n < s.len() && s[n - 1] == '\r' {
        s.take(n - 1)
    } else {
        s.take(n)
    }
}

/// The first line of `text`, without the `\n` or `\r\n` that ends it; a `\r` that
/// no `\n` follows is an ordinary character.
pub fn first_line(text: &str) -> (res: &str)
    ensures
        res@ == line_one(text@),
{
    let total = text.unicode_len();
    let mut chars = text.chars();
    let mut n: usize = 0;
    let mut returned = false;
    assert(text@.skip(0) =~= text@);
    while n < total
        invariant_except_break
            newline_position(text@) == n + newline_position(text@.skip(n as int)),
            chars.remaining() == text@.skip(n as int),
        invariant
            n <= total,
            total == text@.len(),
            returned == (n > 0 && text@[n - 1] == '\r'),
        ensures
            newline_position(text@) == n,
        decreases total - n,
    {
        match chars.next() {
            Some(c) => {
                assert(c == text@[n as int]);
                if c == '\n' {
                    break;
                }
                assert(text@.skip(n as int).drop_first() =~= text@.skip(n + 1));
                returned = c == '\r';
                n += 1;
            },
            None => break,
        }
    }
    let end: usize = if returned && n < total {
        n - 1
    } else {
        n
    };
    let line = text.substring_char(0, end);
    assert(line@ =~= line_one(text@));
    line
}

/// The first line of a text, trimmed.
pub open spec fn headline_of(s: Seq<char>) -> Seq<char> {
    trimmed(line_one(s))
}

/// The first line of `text`, trimmed; empty where `text` is.
pub fn headline(text: &str) -> (res: String)
    ensures
        res@ == headline_of(text@),
{
    first_line(text).trim().to_owned()
}

/// The text that `String::from_utf8_lossy` makes of bytes.
pub uninterp spec fn lossy_utf8(bytes: Seq<u8>) -> Seq<char>;

/// Calls `String::from_utf8_lossy`: what it returns depends on the bytes alone,
/// and bytes that are UTF-8 are decoded as they stand. What takes the place of
/// bytes that are not UTF-8 is left unsaid.
#[verifier::external_body]
pub(crate) fn decode_lossy(bytes: &[u8]) -> (res: String)
    ensures
        res@ == lossy_utf8(bytes@),
        valid_utf8(bytes@) ==> res@ == decode_utf8(bytes@),
{
    String::from_utf8_lossy(bytes).into_owned()
}

/// The characters of an optional string.
pub open spec fn optional_text(text: Option<String>) -> Option<Seq<char>> {
    match text {
        Some(s) => Some(s@),
        None => None,
    }
}

/// The characters of an optional borrowed string.
pub open spec fn optional_str(text: Option<&str>) -> Option<Seq<char>> {
    match text {
        Some(s) => Some(s@),
        None => None,
    }
}

/// Whether two texts hold the same characters.
pub fn same_text(a: &str, b: &str) -> (res: bool)
    ensures
        res == (a@ == b@),
{
    proof {
        encode_utf8_decode_utf8(a@);
        encode_utf8_decode_utf8(b@);
    }
    let left = a.as_bytes();
    let right = b.as_bytes();
    if left.len() != right.len() {
        return false;
    }
    let mut i: usize = 0;
    while i < left.len()
        invariant
            i <= left@.len(),
            left@.len() == right@.len(),
            left@ == encode_utf8(a@),
            right@ == encode_utf8(b@),
            forall|k: int| 0 <= k < i ==> left@[k] == right@[k],
        decreases left@.len() - i,
    {
        if left[i] != right[i] {
            return false;
        }
        i += 1;
    }
    assert(left@ =~= right@);
    true
}

/// A number in decimal digits.
pub open spec fn decimal(n: nat) -> Seq<char>
    decreases n,
{
    let digit = (48 + n % 10) as char;
    if n < 10 {
        seq![digit]
    } else {
        decimal(n / 10).push(digit)
    }
}

/// A number in decimal digits.
pub fn decimal_text(n: u64) -> (res: String)
    ensures
        res@ == decimal(n as nat),
    decreases n,
{
    let mut text = if n < 10 {
        String::new()
    } else {
        decimal_text(n / 10)
    };
    let digit: usize = (n % 10) as usize;
    proof {
        reveal_strlit("0123456789");
    }
    text.append("0123456789".substring_char(digit, digit + 1));
    assert(text@ =~= decimal(n as nat));
    text
}

/// Whether `text` is nothing but white space.
pub open spec fn is_blank(s: Seq<char>) -> bool {
    trimmed(s).len() == 0
}

/// A text is blank exactly when every one of its characters is white space.
pub proof fn blank_means_all_white_space(s: Seq<char>)
    ensures
        is_blank(s) <==> (forall|i: int| 0 <= i < s.len() ==> is_white_space(#[trigger] s[i])),
{
    trimmed_start_facts(s);
    trimmed_end_facts(trimmed_start(s));
}

proof fn trimmed_start_facts(s: Seq<char>)
    ensures
        trimmed_start(s).len() <= s.len(),
        trimmed_start(s) == s.skip(s.len() - trimmed_start(s).len()),
        trimmed_start(s).len() > 0 ==> !is_white_space(trimmed_start(s).first()),
        forall|i: int|
            0 <= i < s.len() - trimmed_start(s).len() ==> is_white_space(#[trigger] s[i]),
    decreases s.len(),
{
    if s.len() > 0 && is_white_space(s.first()) {
        trimmed_start_facts(s.drop_first());
        assert forall|i: int| 0 <= i < s.len() - trimmed_start(s).len() implies is_white_space(
            #[trigger] s[i],
        ) by {
            if i > 0 {
                assert(s[i] == s.drop_first()[i - 1]);
            }
        }
        assert(trimmed_start(s) =~= s.skip(s.len() - trimmed_start(s).len()));
    } else {
        assert(s =~= s.skip(0));
    }
}

proof fn trimmed_end_facts(s: Seq<char>)
    ensures
        trimmed_end(s).len() <= s.len(),
        trimmed_end(s) == s.take(trimmed_end(s).len() as int),
        trimmed_end(s).len() > 0 ==> !is_white_space(trimmed_end(s).last()),
        forall|i: int| trimmed_end(s).len() <= i < s.len() ==> is_white_space(#[trigger] s[i]),
    decreases s.len(),
{
    if s.len() > 0 && is_white_space(s.last()) {
        trimmed_end_facts(s.drop_last());
        assert forall|i: int| trimmed_end(s).len() <= i < s.len() implies is_white_space(
            #[trigger] s[i],
        ) by {
            if i < s.len() - 1 {
                assert(s[i] == s.drop_last()[i]);
            }
        }
        assert(trimmed_end(s) =~= s.take(trimmed_end(s).len() as int));
    } else {
        assert(s =~= s.take(s.len() as int));
    }
}

/// Trimmed text is empty or starts and ends with something else than white
/// space, and trimming it again changes nothing.
pub proof fn trimmed_text_is_tight(s: Seq<char>)
    ensures
        trimmed(s).len() > 0 ==> !is_white_space(trimmed(s).first()) && !is_white_space(
            trimmed(s).last(),
        ),
        trimmed(trimmed(s)) == trimmed(s),
{
    trimmed_start_facts(s);
    trimmed_end_facts(trimmed_start(s));
}

/// Trimming takes a line feed away from the end of a text that is trimmed and
/// not empty, and nothing else.
pub proof fn trimming_takes_the_line_feed(s: Seq<char>)
    requires
        trimmed(s) == s,
        s.len() > 0,
    ensures
        trimmed(s.push('\n')) == s,
{
    trimmed_text_is_tight(s);
    assert(s.push('\n').first() == s.first());
    assert(s.push('\n').drop_last() =~= s);
}

/// The UTF-8 of a text and a line feed is decoded as the text and a line feed.
pub proof fn line_feed_is_decoded(bytes: Seq<u8>)
    requires
        valid_utf8(bytes),
    ensures
        valid_utf8(bytes.push(10u8)),
        decode_utf8(bytes.push(10u8)) == decode_utf8(bytes).push('\n'),
{
    let feed = seq![10u8];
    let line = bytes.push(10u8);
    assert(10u8 & 0x7f == 10u8) by (bit_vector);
    reveal_with_fuel(valid_utf8, 2);
    reveal_with_fuel(decode_utf8, 2);
    assert(pop_first_scalar(feed) =~= Seq::<u8>::empty());
    assert(decode_utf8(feed) =~= seq!['\n']);
    assert(line =~= bytes + feed);
    valid_utf8_concat(bytes, feed);
    is_char_boundary_iff_not_is_continuation_byte(line, bytes.len() as int);
    decode_utf8_split(line, bytes.len() as int);
    assert(line.subrange(0, bytes.len() as int) =~= bytes);
    assert(line.subrange(bytes.len() as int, line.len() as int) =~= feed);
}

proof fn newline_position_facts(s: Seq<char>)
    ensures
        0 <= newline_position(s) <= s.len(),
        forall|i: int| 0 <= i < newline_position(s) ==> s[i] != '\n',
        newline_position(s) < s.len() ==> s[newline_position(s)] == '\n',
    decreases s.len(),
{
    if s.len() > 0 && s.first() != '\n' {
        let rest = s.drop_first();
        newline_position_facts(rest);
        assert forall|i: int| 0 <= i < newline_position(s) implies s[i] != '\n' by {
            if i > 0 {
                assert(s[i] == rest[i - 1]);
            }
        }
        if newline_position(s) < s.len() {
            assert(s[newline_position(s)] == rest[newline_position(rest)]);
        }
    }
}

/// A headline is part of the first line: it holds no line feed, and it neither
/// starts nor ends with white space.
pub proof fn headline_is_one_tight_line(s: Seq<char>)
    ensures
        !headline_of(s).contains('\n'),
        headline_of(s).len() > 0 ==> !is_white_space(headline_of(s).first()) && !is_white_space(
            headline_of(s).last(),
        ),
        headline_of(s).len() <= s.len(),
{
    newline_position_facts(s);
    let line = line_one(s);
    trimmed_text_is_tight(line);
    trimmed_start_facts(line);
    trimmed_end_facts(trimmed_start(line));
    let h = headline_of(s);
    let shift = line.len() - trimmed_start(line).len();
    assert forall|i: int| 0 <= i < h.len() implies h[i] != '\n' by {
        assert(h[i] == trimmed_start(line)[i]);
        assert(h[i] == line[i + shift]);
        assert(h[i] == s[i + shift]);
    }
}

/// Text that is not blank is not empty.
pub proof fn text_that_is_not_blank_is_not_empty(s: Seq<char>)
    requires
        !is_blank(s),
    ensures
        s.len() > 0,
{
}

/// Text between white space is what trimming leaves of the whole.
pub proof fn trimming_leaves_what_stands_between_white_space(
    before: Seq<char>,
    text: Seq<char>,
    behind: Seq<char>,
)
    requires
        forall|i: int| 0 <= i < before.len() ==> is_white_space(#[trigger] before[i]),
        forall|i: int| 0 <= i < behind.len() ==> is_white_space(#[trigger] behind[i]),
        text.len() > 0,
        !is_white_space(text.first()),
        !is_white_space(text.last()),
    ensures
        trimmed(before + text + behind) == text,
{
    let whole = before + text + behind;
    trimmed_start_facts(whole);
    let start = trimmed_start(whole);
    let cut = whole.len() - start.len();
    assert(whole[before.len() as int] == text[0]);
    assert(cut <= before.len());
    if cut < before.len() {
        assert(whole[cut] == before[cut]);
        assert(start.first() == whole[cut]);
    }
    assert(start =~= text + behind);
    trimmed_end_facts(start);
    let kept = trimmed_end(start).len() as int;
    assert(start[text.len() - 1] == text.last());
    assert(kept >= text.len());
    if kept > text.len() {
        assert(start[kept - 1] == behind[kept - 1 - text.len()]);
        assert(trimmed_end(start).last() == start[kept - 1]);
    }
    assert(trimmed_end(start) =~= text);
}

/// A text of one line is its own first line, and so is what stands before the
/// first line feed of a text of several, without a carriage return at its end.
pub proof fn the_first_line_ends_at_the_first_line_feed(line: Seq<char>, rest: Seq<char>)
    requires
        !line.contains('\n'),
    ensures
        line_one(line) == line,
        line.len() > 0 && line.last() == '\r' ==> line_one(line.push('\n') + rest)
            == line.drop_last(),
        !(line.len() > 0 && line.last() == '\r') ==> line_one(line.push('\n') + rest) == line,
{
    let n = line.len() as int;
    newline_position_facts(line);
    let p = newline_position(line);
    if p < n {
        assert(line.contains(line[p]));
    }
    assert(line.take(n) =~= line);
    let whole = line.push('\n') + rest;
    newline_position_facts(whole);
    let q = newline_position(whole);
    assert(whole[n] == '\n');
    if q < n {
        assert(whole[q] == line[q]);
        assert(line.contains(line[q]));
    }
    assert(q == n);
    assert(whole.take(n) =~= line);
    if n > 0 {
        assert(whole[n - 1] == line.last());
        assert(whole.take(n - 1) =~= line.drop_last());
    }
}

proof fn white_space_behind_does_not_matter(s: Seq<char>, w: char)
    requires
        is_white_space(w),
    ensures
        trimmed(s.push(w)) == trimmed(s),
{
    white_space_behind_stays_behind(s, w);
    assert(trimmed_start(s).push(w).drop_last() =~= trimmed_start(s));
}

proof fn white_space_behind_stays_behind(s: Seq<char>, w: char)
    requires
        is_white_space(w),
    ensures
        trimmed_start(s).len() > 0 ==> trimmed_start(s.push(w)) == trimmed_start(s).push(w),
        trimmed_start(s).len() == 0 ==> trimmed_start(s.push(w)).len() == 0,
    decreases s.len(),
{
    let longer = s.push(w);
    if s.len() > 0 {
        assert(longer.first() == s.first());
        assert(longer.drop_first() =~= s.drop_first().push(w));
        if is_white_space(s.first()) {
            white_space_behind_stays_behind(s.drop_first(), w);
        }
    } else {
        assert(longer.drop_first() =~= Seq::<char>::empty());
        assert(trimmed_start(longer) == trimmed_start(longer.drop_first()));
    }
}

/// The headline of a text is what stands before its first line feed, trimmed,
/// whatever stands behind.
pub proof fn the_headline_stands_before_the_first_line_feed(line: Seq<char>, rest: Seq<char>)
    requires
        !line.contains('\n'),
    ensures
        headline_of(line) == trimmed(line),
        headline_of(line.push('\n') + rest) == trimmed(line),
{
    the_first_line_ends_at_the_first_line_feed(line, rest);
    if line.len() > 0 && line.last() == '\r' {
        white_space_behind_does_not_matter(line.drop_last(), '\r');
        assert(line.drop_last().push('\r') =~= line);
    }
}

/// The number that decimal digits tell.
pub open spec fn told_number(digits: Seq<char>) -> int
    decreases digits.len(),
{
    if digits.len() == 0 {
        0
    } else {
        10 * told_number(digits.drop_last()) + (digits.last() as int - '0' as int)
    }
}

/// A number in decimal tells the number: it is made of digits, does not start with
/// a zero unless it is one, and is read as what it was written from.
pub proof fn decimal_tells_its_number(n: nat)
    ensures
        told_number(decimal(n)) == n,
        decimal(n).len() > 0,
        forall|i: int| 0 <= i < decimal(n).len() ==> '0' <= #[trigger] decimal(n)[i] <= '9',
        decimal(n).first() == '0' ==> n == 0,
    decreases n,
{
    let digit = (48 + n % 10) as char;
    if n < 10 {
        assert(decimal(n) == seq![digit]);
        assert(seq![digit].drop_last() =~= Seq::<char>::empty());
        assert(told_number(Seq::<char>::empty()) == 0);
    } else {
        decimal_tells_its_number(n / 10);
        assert(decimal(n) == decimal(n / 10).push(digit));
        assert(decimal(n).drop_last() =~= decimal(n / 10));
        assert(decimal(n).first() == decimal(n / 10).first());
    }
}

/// An optional text has the characters of the string that it is, and none where it
/// is none.
pub proof fn optional_texts_have_their_characters(text: Option<String>, borrowed: Option<&str>)
    ensures
        text matches Some(s) ==> optional_text(text) == Some(s@),
        text is None ==> optional_text(text) is None,
        borrowed matches Some(s) ==> optional_str(borrowed) == Some(s@),
        borrowed is None ==> optional_str(borrowed) is None,
{
}

} // verus!
