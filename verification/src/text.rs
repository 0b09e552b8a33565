//! Text primitives shared by the bindings: trimming, comparison, decimal
//! rendering and concatenation, each stated over sequences of characters.
use vstd::prelude::*;
use vstd::utf8::encode_utf8;
use vstd::string::*;

verus! {

broadcast use {
    vstd::string::to_string_from_display_ensures_for_str,
    vstd::seq_lib::group_seq_properties,
};

/// Whether `c` has the Unicode `White_Space` property.
pub open spec fn is_whitespace(c: char) -> bool {
    ||| '\u{9}' <= c <= '\u{d}'
    ||| c == ' '
    ||| c == '\u{85}'
    ||| c == '\u{a0}'
    ||| c == '\u{1680}'
    ||| '\u{2000}' <= c <= '\u{200a}'
    ||| c == '\u{2028}'
    ||| c == '\u{2029}'
    ||| c == '\u{202f}'
    ||| c == '\u{205f}'
    ||| c == '\u{3000}'
}

/// `s` without its leading white space.
pub open spec fn trimmed_start(s: Seq<char>) -> Seq<char>
    decreases s.len(),
{
    if s.len() > 0 && is_whitespace(s[0]) {
        trimmed_start(s.skip(1))
    } else {
        s
    }
}

/// `s` without its trailing white space.
pub open spec fn trimmed_end(s: Seq<char>) -> Seq<char>
    decreases s.len(),
{
    if s.len() > 0 && is_whitespace(s.last()) {
        trimmed_end(s.drop_last())
    } else {
        s
    }
}

/// `s` without white space at either end.
pub open spec fn trimmed(s: Seq<char>) -> Seq<char> {
    trimmed_end(trimmed_start(s))
}

/// Trimming stops at a character that is no white space, and brings nothing in.
pub proof fn trimming_stops_inside(head: Seq<char>, c: char, tail: Seq<char>)
    requires
        !is_whitespace(c),
    ensures
        trimmed(head + seq![c] + tail) == trimmed_start(head) + seq![c] + trimmed_end(tail),
        !head.contains(c) ==> !trimmed_start(head).contains(c),
{
    trimmed_start_stops(head, c, tail);
    trimmed_end_stops(trimmed_start(head), c, tail);
}

proof fn trimmed_start_stops(head: Seq<char>, c: char, tail: Seq<char>)
    requires
        !is_whitespace(c),
    ensures
        trimmed_start(head + seq![c] + tail) == trimmed_start(head) + seq![c] + tail,
        !head.contains(c) ==> !trimmed_start(head).contains(c),
    decreases head.len(),
{
    let whole = head + seq![c] + tail;
    if head.len() > 0 && is_whitespace(head[0]) {
        assert(whole.skip(1) =~= head.skip(1) + seq![c] + tail);
        trimmed_start_stops(head.skip(1), c, tail);
        if head.skip(1).contains(c) {
            let i = choose|i: int| 0 <= i < head.skip(1).len() && head.skip(1)[i] == c;
            assert(head[i + 1] == c);
        }
    }
}

proof fn trimmed_end_stops(head: Seq<char>, c: char, tail: Seq<char>)
    requires
        !is_whitespace(c),
    ensures
        trimmed_end(head + seq![c] + tail) == head + seq![c] + trimmed_end(tail),
    decreases tail.len(),
{
    let whole = head + seq![c] + tail;
    if tail.len() > 0 && is_whitespace(tail.last()) {
        assert(whole.drop_last() =~= head + seq![c] + tail.drop_last());
        trimmed_end_stops(head, c, tail.drop_last());
    }
}

/// Whether nothing but white space is in `s`.
pub open spec fn is_blank(s: Seq<char>) -> bool {
    trimmed(s).len() == 0
}

/// `str::trim` drops the leading and trailing characters that have the Unicode
/// `White_Space` property and keeps everything between them.
pub assume_specification[ str::trim ](s: &str) -> (r: &str)
    ensures
        r@ == trimmed(s@),
;

/// `String::push` appends one character.
pub assume_specification[ String::push ](s: &mut String, c: char)
    ensures
        final(s)@ == old(s)@.push(c),
;

/// Whether two texts hold the same characters.
pub(crate) fn same_text(a: &str, b: &str) -> (r: bool)
    ensures
        r == (a@ == b@),
{
    a.to_owned() == b.to_owned()
}

/// An owned copy of `s`.
pub fn owned(s: &str) -> (r: String)
    ensures
        r@ == s@,
{
    s.to_owned()
}

/// The characters of an optional text.
pub open spec fn text_option(s: Option<String>) -> Option<Seq<char>> {
    match s {
        Some(text) => Some(text@),
        None => None,
    }
}

/// The characters of each text in a list.
pub open spec fn text_seq(s: Seq<String>) -> Seq<Seq<char>> {
    s.map_values(|text: String| text@)
}

/// Decimal digits of `n`, most significant first, without leading zeros.
pub open spec fn decimal(n: nat) -> Seq<char>
    decreases n,
{
    if n < 10 {
        seq![digit_char(n)]
    } else {
        decimal(n / 10).push(digit_char(n % 10))
    }
}

/// The digit that stands for `d`.
pub open spec fn digit_char(d: nat) -> char {
    ('0' as int + d) as char
}

fn digit(d: u64) -> (c: char)
    requires
        d < 10,
    ensures
        c == digit_char(d as nat),
{
    (48u8 + d as u8) as char
}

/// Decimal rendering of `n`.
pub fn decimal_text(n: u64) -> (r: String)
    ensures
        r@ == decimal(n as nat),
    decreases n,
{
    if n < 10 {
        let mut s = String::new();
        s.push(digit(n));
        assert(s@ =~= seq![digit_char(n as nat)]);
        s
    } else {
        let mut s = decimal_text(n / 10);
        s.push(digit(n % 10));
        s
    }
}

/// Decimal renderings are never empty and hold digits only.
pub proof fn decimal_holds_digits(n: nat)
    ensures
        decimal(n).len() > 0,
        forall|i: int| 0 <= i < decimal(n).len() ==> '0' <= #[trigger] decimal(n)[i] <= '9',
    decreases n,
{
    if n >= 10 {
        decimal_holds_digits(n / 10);
    }
}

/// Different numbers have different decimal renderings.
pub proof fn decimal_is_injective(a: nat, b: nat)
    requires
        decimal(a) == decimal(b),
    ensures
        a == b,
    decreases a,
{
    decimal_holds_digits(a / 10);
    decimal_holds_digits(b / 10);
    reveal_with_fuel(decimal, 2);
    if a < 10 && b < 10 {
        assert(decimal(a)[0] == digit_char(a));
        assert(decimal(b)[0] == digit_char(b));
        assert(digit_char(a) as int == '0' as int + a);
        assert(digit_char(b) as int == '0' as int + b);
    } else if a >= 10 && b >= 10 {
        assert(decimal(a).last() == digit_char(a % 10));
        assert(decimal(b).last() == digit_char(b % 10));
        assert(digit_char(a % 10) as int == '0' as int + a % 10);
        assert(digit_char(b % 10) as int == '0' as int + b % 10);
        assert(decimal(a).drop_last() =~= decimal(a / 10));
        assert(decimal(b).drop_last() =~= decimal(b / 10));
        decimal_is_injective(a / 10, b / 10);
    } else if a < 10 {
        assert(decimal(a).len() == 1);
        assert(decimal(b) == decimal(b / 10).push(digit_char(b % 10)));
        assert(decimal(b).len() > 1);
    } else {
        assert(decimal(b).len() == 1);
        assert(decimal(a) == decimal(a / 10).push(digit_char(a % 10)));
        assert(decimal(a).len() > 1);
    }
}

/// `a` followed by `b`.
pub fn joined(a: &str, b: &str) -> (r: String)
    ensures
        r@ == a@ + b@,
{
    owned(a).concat(b)
}

/// `a`, `b` and `c`, one after the other.
pub fn joined3(a: &str, b: &str, c: &str) -> (r: String)
    ensures
        r@ == a@ + b@ + c@,
{
    owned(a).concat(b).concat(c)
}

/// The characters of `s`.
pub fn char_list(s: &str) -> (r: Vec<char>)
    ensures
        r@ == s@,
{
    broadcast use vstd::string::axiom_spec_iter;

    let mut r: Vec<char> = Vec::new();
    for c in it: s.chars()
        invariant
            r@ == it.seq().take(it.index() as int),
            it.seq() == s@,
    {
        r.push(c);
    }
    r
}

/// The text made of the characters in `from..to`.
pub fn text_of(chars: &Vec<char>, from: usize, to: usize) -> (r: String)
    requires
        from <= to <= chars@.len(),
    ensures
        r@ == chars@.subrange(from as int, to as int),
{
    let mut r = String::new();
    let mut i: usize = from;
    while i < to
        invariant
            from <= i <= to <= chars@.len(),
            r@ == chars@.subrange(from as int, i as int),
        decreases to - i,
    {
        r.push(chars[i]);
        i += 1;
    }
    r
}

/// Whether `s` begins with `prefix`.
pub fn has_prefix(s: &str, prefix: &str) -> (r: bool)
    ensures
        r == prefix@.is_prefix_of(s@),
{
    let text = char_list(s);
    let head = char_list(prefix);
    if head.len() > text.len() {
        return false;
    }
    let mut i: usize = 0;
    while i < head.len()
        invariant
            i <= head@.len() <= text@.len(),
            head@ == prefix@,
            text@ == s@,
            forall|k: int| 0 <= k < i ==> head@[k] == text@[k],
        decreases head@.len() - i,
    {
        if head[i] != text[i] {
            assert(prefix@[i as int] != s@.subrange(0, prefix@.len() as int)[i as int]);
            return false;
        }
        i += 1;
    }
    assert(prefix@ =~= s@.subrange(0, prefix@.len() as int));
    true
}

/// A copy of `s` without white space at either end.
pub fn trimmed_text(s: &str) -> (r: String)
    ensures
        r@ == trimmed(s@),
{
    s.trim().to_owned()
}

/// The trimmed text, where anything is left of it.
pub fn non_blank(s: &str) -> (r: Option<String>)
    ensures
        text_option(r) == (if is_blank(s@) {
            None
        } else {
            Some(trimmed(s@))
        }),
{
    let text = s.trim();
    if text.is_empty() {
        None
    } else {
        Some(text.to_owned())
    }
}

/// How many characters of `s` stand before the first `c`.
pub open spec fn position(s: Seq<char>, c: char) -> nat
    decreases s.len(),
{
    if s.len() == 0 || s[0] == c {
        0
    } else {
        1 + position(s.skip(1), c)
    }
}

/// What stands before the first `c`, or all of `s`.
pub open spec fn before_first(s: Seq<char>, c: char) -> Seq<char> {
    s.take(position(s, c) as int)
}

/// What follows the first `c`, if there is one.
pub open spec fn after_first(s: Seq<char>, c: char) -> Option<Seq<char>> {
    if position(s, c) < s.len() {
        Some(s.skip(position(s, c) as int + 1))
    } else {
        None
    }
}

/// `position` is the least index of `c`, or the length where `c` is absent.
pub proof fn position_is_first(s: Seq<char>, c: char)
    ensures
        position(s, c) <= s.len(),
        position(s, c) < s.len() ==> s[position(s, c) as int] == c,
        forall|i: int| 0 <= i < position(s, c) ==> #[trigger] s[i] != c,
    decreases s.len(),
{
    if s.len() > 0 && s[0] != c {
        position_is_first(s.skip(1), c);
        assert forall|i: int| 0 <= i < position(s, c) implies #[trigger] s[i] != c by {
            if i > 0 {
                assert(s.skip(1)[i - 1] == s[i]);
            }
        }
    }
}

/// The least index of `c` in `chars`, or their number.
pub fn find_char(chars: &Vec<char>, c: char) -> (r: usize)
    ensures
        r == position(chars@, c),
        r <= chars@.len(),
{
    proof {
        position_is_first(chars@, c);
    }
    let mut i: usize = 0;
    while i < chars.len() && chars[i] != c
        invariant
            i <= chars@.len(),
            i <= position(chars@, c) <= chars@.len(),
            position(chars@, c) < chars@.len() ==> chars@[position(chars@, c) as int] == c,
            forall|k: int| 0 <= k < position(chars@, c) ==> #[trigger] chars@[k] != c,
        decreases chars@.len() - i,
    {
        i += 1;
    }
    i
}

/// What stands before the first `c`, or all of `s`.
pub fn text_before(s: &str, c: char) -> (r: String)
    ensures
        r@ == before_first(s@, c),
{
    let chars = char_list(s);
    let end: usize = find_char(&chars, c);
    text_of(&chars, 0, end)
}

/// What follows the first `c`, if there is one.
pub fn text_after(s: &str, c: char) -> (r: Option<String>)
    ensures
        text_option(r) == after_first(s@, c),
{
    let chars = char_list(s);
    let at: usize = find_char(&chars, c);
    if at < chars.len() {
        let rest = text_of(&chars, at + 1, chars.len());
        assert(rest@ =~= s@.skip(at + 1));
        Some(rest)
    } else {
        None
    }
}

/// `s` without the `c`s that it ends in.
pub open spec fn without_trailing(s: Seq<char>, c: char) -> Seq<char>
    decreases s.len(),
{
    if s.len() > 0 && s.last() == c {
        without_trailing(s.drop_last(), c)
    } else {
        s
    }
}

/// `s` without the `c`s that it ends in.
pub fn text_without_trailing(s: &str, c: char) -> (r: String)
    ensures
        r@ == without_trailing(s@, c),
{
    let chars = char_list(s);
    let mut end: usize = chars.len();
    assert(chars@.take(end as int) =~= chars@);
    while end > 0 && chars[end - 1] == c
        invariant
            end <= chars@.len(),
            without_trailing(chars@.take(end as int), c) == without_trailing(chars@, c),
        decreases end,
    {
        assert(chars@.take(end as int).drop_last() =~= chars@.take(end - 1));
        end -= 1;
    }
    assert(chars@.take(end as int) =~= chars@.subrange(0, end as int));
    text_of(&chars, 0, end)
}

/// `char::is_whitespace` holds of the characters with the Unicode
/// `White_Space` property.
pub assume_specification[ char::is_whitespace ](c: char) -> (r: bool)
    ensures
        r == is_whitespace(c),
;

/// Whether white space occurs anywhere in `s`.
pub open spec fn has_whitespace(s: Seq<char>) -> bool {
    exists|i: int| 0 <= i < s.len() && is_whitespace(#[trigger] s[i])
}

/// Whether white space occurs anywhere in `s`.
pub fn contains_whitespace(s: &str) -> (r: bool)
    ensures
        r == has_whitespace(s@),
{
    let chars = char_list(s);
    let mut i: usize = 0;
    while i < chars.len()
        invariant
            i <= chars@.len(),
            chars@ == s@,
            forall|k: int| 0 <= k < i ==> !is_whitespace(#[trigger] chars@[k]),
        decreases chars@.len() - i,
    {
        if chars[i].is_whitespace() {
            return true;
        }
        i += 1;
    }
    false
}

/// `c` with upper-case ASCII letters made lower case.
pub open spec fn ascii_lower(c: char) -> char {
    if 'A' <= c <= 'Z' {
        (c as u32 + 32) as char
    } else {
        c
    }
}

/// `s` with upper-case ASCII letters made lower case.
pub open spec fn ascii_lowercase(s: Seq<char>) -> Seq<char> {
    s.map_values(|c: char| ascii_lower(c))
}

/// `s` with upper-case ASCII letters made lower case.
pub fn ascii_lowercase_text(s: &str) -> (r: String)
    ensures
        r@ == ascii_lowercase(s@),
{
    let chars = char_list(s);
    let mut r = String::new();
    let mut i: usize = 0;
    while i < chars.len()
        invariant
            i <= chars@.len(),
            chars@ == s@,
            r@ == ascii_lowercase(s@.take(i as int)),
        decreases chars@.len() - i,
    {
        let c = chars[i];
        let lower = if 'A' <= c && c <= 'Z' {
            (c as u8 + 32) as char
        } else {
            c
        };
        assert(lower == ascii_lower(c));
        r.push(lower);
        assert(ascii_lowercase(s@.take(i + 1)) =~= ascii_lowercase(s@.take(i as int)).push(lower));
        i += 1;
    }
    assert(s@.take(i as int) =~= s@);
    r
}

/// Whether `part` occurs somewhere in `s`.
pub open spec fn occurs_in(part: Seq<char>, s: Seq<char>) -> bool {
    exists|i: int| 0 <= i && i + part.len() <= s.len() && #[trigger] s.subrange(i, i + part.len()) == part
}

/// Whether `part` stands in `chars` at `from`.
fn stands_at(chars: &Vec<char>, part: &Vec<char>, from: usize) -> (r: bool)
    requires
        from + part@.len() <= chars@.len(),
    ensures
        r == (chars@.subrange(from as int, from + part@.len()) == part@),
{
    let n: usize = chars.len();
    let mut i: usize = 0;
    while i < part.len()
        invariant
            n == chars@.len(),
            i <= part@.len(),
            from + part@.len() <= chars@.len(),
            forall|k: int| 0 <= k < i ==> chars@[from + k] == #[trigger] part@[k],
        decreases part@.len() - i,
    {
        if chars[from + i] != part[i] {
            assert(chars@.subrange(from as int, from + part@.len())[i as int] != part@[i as int]);
            return false;
        }
        i += 1;
    }
    assert(chars@.subrange(from as int, from + part@.len()) =~= part@);
    true
}

/// Whether `part` occurs somewhere in `s`.
pub fn contains_text(s: &str, part: &str) -> (r: bool)
    ensures
        r == occurs_in(part@, s@),
{
    let chars = char_list(s);
    let wanted = char_list(part);
    if wanted.len() > chars.len() {
        return false;
    }
    let last = chars.len() - wanted.len();
    let mut from: usize = 0;
    while from <= last
        invariant
            chars@ == s@,
            wanted@ == part@,
            last == chars@.len() - wanted@.len(),
            from <= last + 1,
            forall|i: int|
                0 <= i < from ==> #[trigger] s@.subrange(i, i + part@.len()) != part@,
        decreases last + 1 - from,
    {
        if stands_at(&chars, &wanted, from) {
            return true;
        }
        if from == last {
            assert forall|i: int| 0 <= i && i + part@.len() <= s@.len() implies #[trigger] s@.subrange(
                i,
                i + part@.len(),
            ) != part@ by {
                if i == from {
                }
            }
            return false;
        }
        from += 1;
    }
    false
}

/// How many bytes a text takes.
pub fn byte_len(s: &str) -> (r: usize)
    ensures
        r == encode_utf8(s@).len(),
{
    s.as_bytes().len()
}

/// Whether a character is a control character.
pub open spec fn is_control(c: char) -> bool {
    c <= '\u{1f}' || '\u{7f}' <= c <= '\u{9f}'
}

/// Whether a text holds a control character.
pub open spec fn has_control(s: Seq<char>) -> bool {
    exists|i: int| 0 <= i < s.len() && is_control(#[trigger] s[i])
}

/// Whether a text holds a control character.
pub fn contains_control(s: &str) -> (r: bool)
    ensures
        r == has_control(s@),
{
    let chars = char_list(s);
    let mut i: usize = 0;
    while i < chars.len()
        invariant
            i <= chars@.len(),
            chars@ == s@,
            forall|k: int| 0 <= k < i ==> !is_control(#[trigger] s@[k]),
        decreases chars@.len() - i,
    {
        let c = chars[i];
        if c <= '\u{1f}' || ('\u{7f}' <= c && c <= '\u{9f}') {
            assert(is_control(s@[i as int]));
            return true;
        }
        i += 1;
    }
    false
}

proof fn start_is_a_suffix(s: Seq<char>) -> (a: int)
    ensures
        0 <= a <= s.len(),
        trimmed_start(s) == s.skip(a),
        forall|i: int| 0 <= i < a ==> is_whitespace(#[trigger] s[i]),
        a < s.len() ==> !is_whitespace(s[a]),
    decreases s.len(),
{
    if s.len() > 0 && is_whitespace(s[0]) {
        let rest = s.skip(1);
        let a = start_is_a_suffix(rest) + 1;
        assert(rest.skip(a - 1) =~= s.skip(a));
        assert forall|i: int| 0 <= i < a implies is_whitespace(#[trigger] s[i]) by {
            if i > 0 {
                assert(rest[i - 1] == s[i]);
            }
        }
        assert(a < s.len() ==> rest[a - 1] == s[a]);
        a
    } else {
        assert(s.skip(0) =~= s);
        0
    }
}

proof fn end_is_a_prefix(s: Seq<char>) -> (b: int)
    ensures
        0 <= b <= s.len(),
        trimmed_end(s) == s.take(b),
        forall|i: int| b <= i < s.len() ==> is_whitespace(#[trigger] s[i]),
        b > 0 ==> !is_whitespace(s[b - 1]),
    decreases s.len(),
{
    if s.len() > 0 && is_whitespace(s.last()) {
        let rest = s.drop_last();
        let b = end_is_a_prefix(rest);
        assert(rest.take(b) =~= s.take(b));
        assert forall|i: int| b <= i < s.len() implies is_whitespace(#[trigger] s[i]) by {
            if i < rest.len() {
                assert(rest[i] == s[i]);
            }
        }
        assert(b > 0 ==> rest[b - 1] == s[b - 1]);
        b
    } else {
        assert(s.take(s.len() as int) =~= s);
        s.len() as int
    }
}

/// Trimming takes away blanks at both ends and nothing else: what is left is one
/// piece of the text, without a blank at either end.
pub proof fn trimming_takes_away_outer_blanks(s: Seq<char>) -> (ends: (int, int))
    ensures
        0 <= ends.0 <= ends.1 <= s.len(),
        trimmed(s) == s.subrange(ends.0, ends.1),
        forall|i: int|
            0 <= i < ends.0 || ends.1 <= i < s.len() ==> is_whitespace(#[trigger] s[i]),
        ends.0 < ends.1 ==> !is_whitespace(s[ends.0]) && !is_whitespace(s[ends.1 - 1]),
{
    let a = start_is_a_suffix(s);
    let rest = s.skip(a);
    let b = end_is_a_prefix(rest);
    assert(trimmed(s) =~= s.subrange(a, a + b));
    assert forall|i: int| 0 <= i < a || a + b <= i < s.len() implies is_whitespace(
        #[trigger] s[i],
    ) by {
        if i >= a {
            assert(rest[i - a] == s[i]);
        }
    }
    if b > 0 {
        assert(rest[0] == s[a]);
        assert(rest[b - 1] == s[a + b - 1]);
    }
    (a, a + b)
}

/// A text is blank exactly where it holds blanks alone.
pub proof fn blank_texts_hold_blanks_alone(s: Seq<char>)
    ensures
        is_blank(s) <==> forall|i: int| 0 <= i < s.len() ==> is_whitespace(#[trigger] s[i]),
{
    let ends = trimming_takes_away_outer_blanks(s);
    if is_blank(s) {
        assert(ends.0 == ends.1);
    } else {
        assert(!is_whitespace(s[ends.0]));
    }
}

/// Trimming twice is trimming once, and a text without outer blanks stays as it is.
pub proof fn trimming_is_idempotent(s: Seq<char>)
    ensures
        trimmed(trimmed(s)) == trimmed(s),
        s.len() > 0 && !is_whitespace(s[0]) && !is_whitespace(s.last()) ==> trimmed(s) == s,
{
    let ends = trimming_takes_away_outer_blanks(s);
    let inner = trimmed(s);
    let again = trimming_takes_away_outer_blanks(inner);
    if inner.len() > 0 {
        assert(inner[0] == s[ends.0]);
        assert(inner.last() == s[ends.1 - 1]);
        assert(again.0 == 0);
        assert(again.1 == inner.len());
        assert(inner.subrange(0, inner.len() as int) =~= inner);
    } else {
        assert(trimmed(inner) =~= inner);
    }
    if s.len() > 0 && !is_whitespace(s[0]) && !is_whitespace(s.last()) {
        assert(ends.0 == 0 && ends.1 == s.len());
        assert(s.subrange(0, s.len() as int) =~= s);
    }
}

/// What stands before the first of a character holds none of it, and a text with
/// one is put together again from the two sides of it.
pub proof fn texts_split_at_the_first(s: Seq<char>, c: char)
    ensures
        !before_first(s, c).contains(c),
        s.contains(c) <==> after_first(s, c) is Some,
        after_first(s, c) matches Some(rest) ==> s == before_first(s, c) + seq![c] + rest,
        !s.contains(c) ==> before_first(s, c) == s,
{
    position_is_first(s, c);
    let at = position(s, c) as int;
    if at < s.len() {
        assert(s =~= before_first(s, c) + seq![c] + s.skip(at + 1));
        assert(s[at] == c);
    } else {
        assert(s.take(at) =~= s);
    }
}

/// What is left without trailing characters ends in another one, and only those
/// were taken away.
pub proof fn trailing_characters_are_taken_away(s: Seq<char>, c: char)
    ensures
        without_trailing(s, c).is_prefix_of(s),
        without_trailing(s, c).len() > 0 ==> without_trailing(s, c).last() != c,
        forall|i: int|
            without_trailing(s, c).len() <= i < s.len() ==> #[trigger] s[i] == c,
    decreases s.len(),
{
    if s.len() > 0 && s.last() == c {
        let rest = s.drop_last();
        trailing_characters_are_taken_away(rest, c);
        let kept = without_trailing(s, c);
        assert forall|i: int| kept.len() <= i < s.len() implies #[trigger] s[i] == c by {
            if i < rest.len() {
                assert(rest[i] == s[i]);
            }
        }
        assert(kept =~= s.subrange(0, kept.len() as int));
    }
}

/// The number that a row of digits stands for.
pub open spec fn digits_value(digits: Seq<char>) -> int
    decreases digits.len(),
{
    if digits.len() == 0 {
        0
    } else {
        10 * digits_value(digits.drop_last()) + (digits.last() as int - '0' as int)
    }
}

/// The decimal text of a number stands for that number, without leading zeros.
pub proof fn decimals_stand_for_their_number(n: nat)
    ensures
        digits_value(decimal(n)) == n,
        n > 0 ==> decimal(n)[0] != '0',
        n == 0 ==> decimal(n) == seq!['0'],
    decreases n,
{
    if n < 10 {
        let digit = decimal(n);
        assert(digit.drop_last() =~= Seq::empty());
        assert(digits_value(digit.drop_last()) == 0);
        assert(digit.last() == digit_char(n));
        assert(digit_char(n) as int == '0' as int + n);
    } else {
        decimals_stand_for_their_number(n / 10);
        decimal_holds_digits(n / 10);
        let digits = decimal(n);
        assert(digits.drop_last() =~= decimal(n / 10));
        assert(digits.last() == digit_char(n % 10));
        assert(digit_char(n % 10) as int == '0' as int + n % 10);
        assert(digits[0] == decimal(n / 10)[0]);
    }
}

/// Lower case changes the letters from A to Z alone, each to its own, and keeps the
/// length.
pub proof fn lower_case_changes_capitals_alone(s: Seq<char>, i: int)
    requires
        0 <= i < s.len(),
    ensures
        ascii_lowercase(s).len() == s.len(),
        'A' <= s[i] <= 'Z' ==> ascii_lowercase(s)[i] as int == s[i] as int + 32,
        !('A' <= s[i] <= 'Z') ==> ascii_lowercase(s)[i] == s[i],
        !('A' <= ascii_lowercase(s)[i] <= 'Z'),
{
}

} // verus!
