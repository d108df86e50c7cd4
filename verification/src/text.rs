use vstd::prelude::*;
use vstd::utf8::*;
use vstd::string::*;

use crate::model::User;

verus! {

broadcast use {vstd::utf8::encode_utf8_decode_utf8, vstd::utf8::encode_utf8_valid_utf8};

/// Number of bytes of the UTF-8 encoding of `s` (what `str::len` returns).
pub open spec fn byte_len(s: Seq<char>) -> nat {
    encode_utf8(s).len()
}

/// The characters encoded by the first `n` bytes of the UTF-8 encoding of `s`.
pub open spec fn byte_prefix(s: Seq<char>, n: nat) -> Seq<char> {
    decode_utf8(encode_utf8(s).take(n as int))
}

/// `truncate(s, max_width)` is defined: either `s` already fits in `max_width`
/// bytes, or `max_width - 3` is at least zero and falls on a character boundary.
pub open spec fn truncate_defined(s: Seq<char>, max_width: nat) -> bool {
    byte_len(s) > max_width ==> (max_width >= 3 && is_char_boundary(
        encode_utf8(s),
        max_width - 3,
    ))
}

/// What `truncate` returns: `s` itself when its encoding fits in `max_width`
/// bytes, else the first `max_width - 3` bytes' worth of characters followed by `...`.
pub open spec fn truncated(s: Seq<char>, max_width: nat) -> Seq<char> {
    if byte_len(s) <= max_width {
        s
    } else {
        byte_prefix(s, (max_width - 3) as nat) + seq!['.', '.', '.']
    }
}

/// Cuts `s` so that it takes at most `max_width` bytes, marking a cut with `...`.
pub fn truncate(s: &str, max_width: usize) -> (res: String)
    requires
        truncate_defined(s@, max_width as nat),
    ensures
        res@ == truncated(s@, max_width as nat),
{
    if s.as_bytes().len() <= max_width {
        s.to_owned()
    } else {
        let (head, _) = s.split_at(max_width - 3);
        let mut out = head.to_owned();
        proof {
            reveal_strlit("...");
            assert(encode_utf8(s@).subrange(0, max_width - 3) =~= encode_utf8(s@).take(max_width - 3));
            assert(decode_utf8(encode_utf8(head@)) == head@);
        }
        out.append("...");
        out
    }
}


/// Whether `truncate(s, max_width)` is defined for these arguments.
pub fn can_truncate(s: &str, max_width: usize) -> (res: bool)
    ensures
        res == truncate_defined(s@, max_width as nat),
{
    if s.as_bytes().len() <= max_width {
        true
    } else if max_width < 3 {
        false
    } else {
        s.is_char_boundary(max_width - 3)
    }
}

/// The encoding of a concatenation is the concatenation of the encodings.
pub proof fn lemma_encode_concat(a: Seq<char>, b: Seq<char>)
    ensures
        encode_utf8(a + b) == encode_utf8(a) + encode_utf8(b),
    decreases a.len(),
{
    if a.len() == 0 {
        assert(a + b =~= b);
        assert(encode_utf8(a) + encode_utf8(b) =~= encode_utf8(b));
    } else {
        lemma_encode_concat(a.drop_first(), b);
        assert((a + b).drop_first() =~= a.drop_first() + b);
        assert(encode_utf8(a + b) =~= encode_utf8(a) + encode_utf8(b));
    }
}

/// Cutting an encoding at a character boundary gives the encoding of a prefix
/// of the characters, of exactly that many bytes.
pub proof fn lemma_byte_prefix(s: Seq<char>, n: nat)
    requires
        n <= byte_len(s),
        is_char_boundary(encode_utf8(s), n as int),
    ensures
        byte_len(byte_prefix(s, n)) == n,
        byte_prefix(s, n).len() <= s.len(),
        n < byte_len(s) ==> byte_prefix(s, n).len() < s.len(),
        byte_prefix(s, n) == s.take(byte_prefix(s, n).len() as int),
{
    let bytes = encode_utf8(s);
    vstd::utf8::valid_utf8_split(bytes, n as int);
    vstd::utf8::decode_utf8_split(bytes, n as int);
    assert(bytes.subrange(0, n as int) =~= bytes.take(n as int));
    vstd::utf8::decode_utf8_encode_utf8(bytes.take(n as int));
    let p = byte_prefix(s, n);
    let rest = bytes.subrange(n as int, bytes.len() as int);
    vstd::utf8::decode_utf8_encode_utf8(rest);
    assert(s == decode_utf8(bytes));
    assert(s =~= p + decode_utf8(rest));
    if n < byte_len(s) {
        assert(rest.len() > 0);
        if decode_utf8(rest).len() == 0 {
            assert(decode_utf8(rest) =~= Seq::<char>::empty());
            assert(encode_utf8(Seq::<char>::empty()).len() == 0);
        }
    }
    assert(s.take(p.len() as int) =~= p);
}

/// A truncated text never takes more than `max_width` bytes; where it was cut,
/// it takes exactly `max_width` bytes and is a prefix of the text followed by `...`.
pub proof fn lemma_truncated_fits(s: Seq<char>, max_width: nat)
    requires
        truncate_defined(s, max_width),
    ensures
        byte_len(truncated(s, max_width)) <= max_width,
        byte_len(s) > max_width ==> {
            &&& byte_len(truncated(s, max_width)) == max_width
            &&& exists|k: int|
                0 <= k < s.len() && truncated(s, max_width) == s.take(k) + seq!['.', '.', '.']
        },
{
    if byte_len(s) > max_width {
        let n = (max_width - 3) as nat;
        lemma_byte_prefix(s, n);
        let p = byte_prefix(s, n);
        let dots = seq!['.', '.', '.'];
        lemma_encode_concat(p, dots);
        assert(encode_utf8(dots).len() == 3) by {
            reveal_with_fuel(encode_utf8, 4);
        }
        assert(truncated(s, max_width) == s.take(p.len() as int) + dots);
    }
}


/// A text has no more characters than its encoding has bytes.
pub proof fn lemma_chars_within_bytes(s: Seq<char>)
    ensures
        s.len() <= byte_len(s),
    decreases s.len(),
{
    if s.len() > 0 {
        lemma_chars_within_bytes(s.drop_first());
        assert(encode_scalar(s[0] as u32).len() >= 1);
    }
}

/// The characters after the first `-` of `s`, if it has one.
pub open spec fn after_first_dash(s: Seq<char>) -> Option<Seq<char>> {
    match s.index_of_first('-') {
        Some(i) => Some(s.skip(i + 1)),
        None => None,
    }
}

/// What `truncate_id` returns: the identifier when it fits; else the part after
/// its first `-` when that part fits; else the truncated identifier.
pub open spec fn shortened_id(id: Seq<char>, max_width: nat) -> Seq<char> {
    if byte_len(id) <= max_width {
        id
    } else if after_first_dash(id) is Some && byte_len(after_first_dash(id)->0) <= max_width {
        after_first_dash(id)->0
    } else {
        truncated(id, max_width)
    }
}

/// `truncate_id(id, max_width)` is defined: it only truncates, and so only can
/// fail, when neither the identifier nor its part after the first `-` fits.
pub open spec fn shorten_id_defined(id: Seq<char>, max_width: nat) -> bool {
    ||| byte_len(id) <= max_width
    ||| (after_first_dash(id) is Some && byte_len(after_first_dash(id)->0) <= max_width)
    ||| truncate_defined(id, max_width)
}

/// A shortened identifier takes at most `max_width` bytes.
pub proof fn lemma_shortened_id_fits(id: Seq<char>, max_width: nat)
    requires
        shorten_id_defined(id, max_width),
    ensures
        byte_len(shortened_id(id, max_width)) <= max_width,
{
    if byte_len(id) > max_width && !(after_first_dash(id) is Some && byte_len(
        after_first_dash(id)->0,
    ) <= max_width) {
        lemma_truncated_fits(id, max_width);
    }
}

/// A text cut to `width` bytes and padded to `width` characters takes exactly
/// `width` characters: the cells of a column line up.
pub proof fn lemma_cut_and_padded_width(s: Seq<char>, width: nat)
    requires
        truncate_defined(s, width),
    ensures
        padded(truncated(s, width), width).len() == width,
{
    lemma_truncated_fits(s, width);
    lemma_chars_within_bytes(truncated(s, width));
}

/// Index of the first occurrence of `c` in `s`.
fn find_char(s: &str, c: char) -> (res: Option<usize>)
    ensures
        match res {
            Some(i) => s@.index_of_first(c) == Some(i as int),
            None => s@.index_of_first(c) is None,
        },
{
    let n = s.unicode_len();
    let mut i: usize = 0;
    while i < n
        invariant
            n == s@.len(),
            i <= n,
            forall|j: int| 0 <= j < i ==> s@[j] != c,
        decreases n - i,
    {
        if s.get_char(i) == c {
            proof {
                s@.index_of_first_ensures(c);
                match s@.index_of_first(c) {
                    Some(k) => {
                        assert(k >= i);
                        assert(k <= i);
                    },
                    None => {},
                }
            }
            return Some(i);
        }
        i = i + 1;
    }
    proof {
        s@.index_of_first_ensures(c);
    }
    None
}

/// Shortens an issue identifier such as `ENG-123` to fit in `max_width` bytes,
/// preferring its number part (`123`) to cutting it.
pub fn truncate_id(id: &str, max_width: usize) -> (res: String)
    requires
        shorten_id_defined(id@, max_width as nat),
    ensures
        res@ == shortened_id(id@, max_width as nat),
{
    if id.as_bytes().len() <= max_width {
        id.to_owned()
    } else {
        if let Some(dash_pos) = find_char(id, '-') {
            proof {
                id@.index_of_first_ensures('-');
            }
            let n = id.unicode_len();
            let number_part = id.substring_char(dash_pos + 1, n);
            assert(number_part@ =~= id@.skip(dash_pos + 1));
            if number_part.as_bytes().len() <= max_width {
                return number_part.to_owned();
            }
        }
        truncate(id, max_width)
    }
}


/// `c` is whitespace in Unicode's sense (the `White_Space` property), which is
/// what `char::is_whitespace` and `str::split_whitespace` go by.
pub open spec fn is_space(c: char) -> bool {
    ||| ('\u{9}' <= c && c <= '\u{d}')
    ||| c == ' '
    ||| c == '\u{85}'
    ||| c == '\u{a0}'
    ||| c == '\u{1680}'
    ||| ('\u{2000}' <= c && c <= '\u{200a}')
    ||| c == '\u{2028}'
    ||| c == '\u{2029}'
    ||| c == '\u{202f}'
    ||| c == '\u{205f}'
    ||| c == '\u{3000}'
}

/// Executable `is_space`.
pub fn char_is_space(c: char) -> (res: bool)
    ensures
        res == is_space(c),
{
    ('\u{9}' <= c && c <= '\u{d}') || c == ' ' || c == '\u{85}' || c == '\u{a0}' || c
        == '\u{1680}' || ('\u{2000}' <= c && c <= '\u{200a}') || c == '\u{2028}' || c
        == '\u{2029}' || c == '\u{202f}' || c == '\u{205f}' || c == '\u{3000}'
}

/// `s` without its leading whitespace.
pub open spec fn skip_spaces(s: Seq<char>) -> Seq<char>
    decreases s.len(),
{
    if s.len() > 0 && is_space(s[0]) {
        skip_spaces(s.drop_first())
    } else {
        s
    }
}

/// The longest prefix of `s` that holds no whitespace.
pub open spec fn leading_word(s: Seq<char>) -> Seq<char>
    decreases s.len(),
{
    if s.len() > 0 && !is_space(s[0]) {
        seq![s[0]] + leading_word(s.drop_first())
    } else {
        Seq::empty()
    }
}

/// The first whitespace-separated word of `s` (empty when `s` is all whitespace).
pub open spec fn first_word(s: Seq<char>) -> Seq<char> {
    leading_word(skip_spaces(s))
}

/// The leading word of `s` is a prefix of it without whitespace, empty only
/// when `s` is empty or starts with whitespace.
pub proof fn lemma_leading_word(s: Seq<char>)
    ensures
        leading_word(s) == s.take(leading_word(s).len() as int),
        leading_word(s).len() <= s.len(),
        forall|i: int| 0 <= i < leading_word(s).len() ==> !is_space(#[trigger] leading_word(s)[i]),
        leading_word(s).len() < s.len() ==> is_space(s[leading_word(s).len() as int]),
        (leading_word(s).len() == 0) <==> (s.len() == 0 || is_space(s[0])),
    decreases s.len(),
{
    if s.len() > 0 && !is_space(s[0]) {
        let rest = s.drop_first();
        lemma_leading_word(rest);
        let w = leading_word(s);
        assert(w == seq![s[0]] + leading_word(rest));
        assert forall|i: int| 0 <= i < w.len() implies !is_space(#[trigger] w[i]) by {
            if i > 0 {
                assert(w[i] == leading_word(rest)[i - 1]);
            }
        }
        assert(s.take(w.len() as int) =~= w);
        if w.len() < s.len() {
            assert(s[w.len() as int] == rest[leading_word(rest).len() as int]);
        }
    } else {
        assert(s.take(0) =~= Seq::<char>::empty());
    }
}

/// Skipping whitespace leaves a suffix of `s` that is empty or starts with a
/// non-space, after only whitespace.
pub proof fn lemma_skip_spaces(s: Seq<char>)
    ensures
        skip_spaces(s) == s.skip(s.len() - skip_spaces(s).len()),
        skip_spaces(s).len() <= s.len(),
        forall|i: int| 0 <= i < s.len() - skip_spaces(s).len() ==> is_space(#[trigger] s[i]),
        skip_spaces(s).len() > 0 ==> !is_space(skip_spaces(s)[0]),
    decreases s.len(),
{
    if s.len() > 0 && is_space(s[0]) {
        let rest = s.drop_first();
        lemma_skip_spaces(rest);
        assert(s.skip(s.len() - skip_spaces(s).len()) =~= rest.skip(rest.len() - skip_spaces(rest).len()));
        assert forall|i: int| 0 <= i < s.len() - skip_spaces(s).len() implies is_space(#[trigger] s[i]) by {
            if i > 0 {
                assert(s[i] == rest[i - 1]);
            }
        }
    } else {
        assert(s.skip(0) =~= s);
    }
}

/// The first word of a text is a piece of it without whitespace, preceded
/// only by whitespace; it is empty exactly when the text is all whitespace.
pub proof fn lemma_first_word(s: Seq<char>)
    ensures
        ({
            let start = s.len() - skip_spaces(s).len();
            let w = first_word(s);
            &&& 0 <= start <= s.len()
            &&& start + w.len() <= s.len()
            &&& w == s.subrange(start, start + w.len())
            &&& forall|i: int| 0 <= i < start ==> is_space(#[trigger] s[i])
            &&& forall|i: int| 0 <= i < w.len() ==> !is_space(#[trigger] w[i])
            &&& start + w.len() < s.len() ==> is_space(s[start + w.len()])
            &&& (w.len() == 0) <==> (forall|i: int| 0 <= i < s.len() ==> is_space(#[trigger] s[i]))
        }),
{
    lemma_skip_spaces(s);
    let t = skip_spaces(s);
    lemma_leading_word(t);
    let start = s.len() - t.len();
    let w = first_word(s);
    assert(w =~= s.subrange(start, start + w.len()));
    if start + w.len() < s.len() {
        assert(s[start + w.len()] == t[w.len() as int]);
    }
    if w.len() == 0 {
        assert forall|i: int| 0 <= i < s.len() implies is_space(#[trigger] s[i]) by {
            if i >= start {
                assert(t.len() == 0);
            }
        }
    } else {
        assert(!is_space(s[start]));
    }
}

/// The part of `s` before its first `@` (all of `s` when it has none).
pub open spec fn before_at(s: Seq<char>) -> Seq<char> {
    match s.index_of_first('@') {
        Some(i) => s.take(i),
        None => s,
    }
}

/// The part before the first `@` is a prefix without `@`, followed by `@`
/// unless it is the whole text.
pub proof fn lemma_before_at(s: Seq<char>)
    ensures
        before_at(s) == s.take(before_at(s).len() as int),
        before_at(s).len() <= s.len(),
        forall|i: int| 0 <= i < before_at(s).len() ==> #[trigger] before_at(s)[i] != '@',
        before_at(s).len() < s.len() ==> s[before_at(s).len() as int] == '@',
{
    s.index_of_first_ensures('@');
    match s.index_of_first('@') {
        Some(i) => {
            assert(before_at(s) =~= s.take(i));
        },
        None => {
            assert(s.take(s.len() as int) =~= s);
        },
    }
}

/// The short name shown for a user: the local part of the e-mail address,
/// else the first word of the name, else the name itself.
pub open spec fn assignee_label(name: Seq<char>, email: Seq<char>) -> Seq<char> {
    if before_at(email).len() > 0 {
        before_at(email)
    } else if first_word(name).len() > 0 {
        first_word(name)
    } else {
        name
    }
}

proof fn lemma_skip_spaces_step(s: Seq<char>, i: int)
    requires
        0 <= i < s.len(),
        is_space(s[i]),
    ensures
        skip_spaces(s.skip(i)) == skip_spaces(s.skip(i + 1)),
{
    assert(s.skip(i).drop_first() =~= s.skip(i + 1));
}

proof fn lemma_leading_word_step(s: Seq<char>, i: int, j: int)
    requires
        0 <= i <= j < s.len(),
        !is_space(s[j]),
        leading_word(s.skip(i)) == s.subrange(i, j) + leading_word(s.skip(j)),
    ensures
        leading_word(s.skip(i)) == s.subrange(i, j + 1) + leading_word(s.skip(j + 1)),
{
    assert(s.skip(j).drop_first() =~= s.skip(j + 1));
    assert(s.subrange(i, j) + (seq![s[j]] + leading_word(s.skip(j + 1))) =~= s.subrange(i, j + 1)
        + leading_word(s.skip(j + 1)));
}

/// The first whitespace-separated word of `s`, if `s` has one.
fn first_word_of(s: &str) -> (res: Option<String>)
    ensures
        match res {
            Some(w) => w@ == first_word(s@) && w@.len() > 0,
            None => first_word(s@).len() == 0,
        },
{
    let n = s.unicode_len();
    let mut i: usize = 0;
    assert(s@.skip(0) =~= s@);
    while i < n && char_is_space(s.get_char(i))
        invariant
            n == s@.len(),
            i <= n,
            skip_spaces(s@) == skip_spaces(s@.skip(i as int)),
        decreases n - i,
    {
        proof {
            lemma_skip_spaces_step(s@, i as int);
        }
        i = i + 1;
    }
    assert(skip_spaces(s@.skip(i as int)) == s@.skip(i as int));
    let mut j: usize = i;
    assert(s@.subrange(i as int, i as int) + leading_word(s@.skip(i as int)) =~= leading_word(
        s@.skip(i as int),
    ));
    while j < n && !char_is_space(s.get_char(j))
        invariant
            n == s@.len(),
            i <= j <= n,
            leading_word(s@.skip(i as int)) == s@.subrange(i as int, j as int) + leading_word(
                s@.skip(j as int),
            ),
        decreases n - j,
    {
        proof {
            lemma_leading_word_step(s@, i as int, j as int);
        }
        j = j + 1;
    }
    assert(leading_word(s@.skip(j as int)) =~= Seq::<char>::empty());
    assert(first_word(s@) =~= s@.subrange(i as int, j as int));
    if i == j {
        None
    } else {
        Some(s.substring_char(i, j).to_owned())
    }
}

/// The part of `s` before its first `@`.
fn before_at_of(s: &str) -> (res: String)
    ensures
        res@ == before_at(s@),
{
    let n = s.unicode_len();
    match find_char(s, '@') {
        Some(k) => {
            proof {
                s@.index_of_first_ensures('@');
            }
            let head = s.substring_char(0, k);
            assert(head@ =~= s@.take(k as int));
            head.to_owned()
        },
        None => {
            let all = s.substring_char(0, n);
            assert(all@ =~= s@);
            all.to_owned()
        },
    }
}

/// The short name shown for `user` in the issue list and the detail view.
pub fn parse_assignee_name(user: &User) -> (res: String)
    ensures
        res@ == assignee_label(user.name@, user.email@),
{
    let username = before_at_of(user.email.as_str());
    if !username.as_str().is_empty() {
        return username;
    }
    if let Some(first_name) = first_word_of(user.name.as_str()) {
        return first_name;
    }
    user.name.clone()
}


/// The decimal digit character for `d < 10`.
pub open spec fn digit_char(d: nat) -> char {
    (d + 48) as char
}

/// The decimal representation of `n`, as `{}` formats an integer.
pub open spec fn decimal(n: nat) -> Seq<char>
    decreases n,
{
    if n < 10 {
        seq![digit_char(n)]
    } else {
        decimal(n / 10).push(digit_char(n % 10))
    }
}

fn digit_str(d: usize) -> (res: &'static str)
    requires
        d < 10,
    ensures
        res@ == seq![digit_char(d as nat)],
{
    proof {
        reveal_strlit("0");
        reveal_strlit("1");
        reveal_strlit("2");
        reveal_strlit("3");
        reveal_strlit("4");
        reveal_strlit("5");
        reveal_strlit("6");
        reveal_strlit("7");
        reveal_strlit("8");
        reveal_strlit("9");
    }
    match d {
        0 => "0",
        1 => "1",
        2 => "2",
        3 => "3",
        4 => "4",
        5 => "5",
        6 => "6",
        7 => "7",
        8 => "8",
        _ => "9",
    }
}

/// A decimal is a non-empty run of digits, longer than one digit from 10 on.
pub proof fn lemma_decimal_digits(n: nat)
    ensures
        decimal(n).len() >= 1,
        n >= 10 ==> decimal(n).len() >= 2,
        forall|i: int| 0 <= i < decimal(n).len() ==> '0' <= #[trigger] decimal(n)[i] <= '9',
    decreases n,
{
    if n >= 10 {
        lemma_decimal_digits(n / 10);
        let d = decimal(n / 10);
        assert forall|i: int| 0 <= i < decimal(n).len() implies '0' <= #[trigger] decimal(n)[i] <= '9' by {
            if i < d.len() {
                assert(decimal(n)[i] == d[i]);
            }
        }
    }
}

/// Different numbers are written differently.
pub proof fn lemma_decimal_injective(a: nat, b: nat)
    requires
        decimal(a) == decimal(b),
    ensures
        a == b,
    decreases a,
{
    lemma_decimal_digits(a);
    lemma_decimal_digits(b);
    if a < 10 && b < 10 {
        assert(decimal(a) == seq![digit_char(a)]);
        assert(decimal(b) == seq![digit_char(b)]);
        assert(seq![digit_char(a)][0] == digit_char(a));
        assert(seq![digit_char(b)][0] == digit_char(b));
        assert(decimal(a)[0] == decimal(b)[0]);
        assert(digit_char(a) as int == a + 48);
        assert(digit_char(b) as int == b + 48);
        assert(digit_char(a) == digit_char(b));
        assert(a == b);
    } else if a >= 10 && b >= 10 {
        assert(digit_char(a % 10) as int == a % 10 + 48);
        assert(digit_char(b % 10) as int == b % 10 + 48);
        let da = decimal(a / 10);
        let db = decimal(b / 10);
        assert(decimal(a).last() == digit_char(a % 10));
        assert(decimal(b).last() == digit_char(b % 10));
        assert(decimal(a).drop_last() =~= da);
        assert(decimal(b).drop_last() =~= db);
        lemma_decimal_injective(a / 10, b / 10);
        assert(a % 10 == b % 10);
        assert(a == 10 * (a / 10) + a % 10);
        assert(b == 10 * (b / 10) + b % 10);
        assert(a == b);
    } else {
        assert(decimal(a).len() != decimal(b).len());
    }
}

/// `n` written in decimal.
pub fn decimal_string(n: usize) -> (res: String)
    ensures
        res@ == decimal(n as nat),
    decreases n,
{
    if n < 10 {
        digit_str(n).to_owned()
    } else {
        let mut out = decimal_string(n / 10);
        out.append(digit_str(n % 10));
        out
    }
}

/// `s` followed by `k` spaces.
pub open spec fn with_spaces(s: Seq<char>, k: nat) -> Seq<char> {
    s + Seq::new(k, |i: int| ' ')
}

/// `s` padded with spaces on the right to `width` characters, as `{:<width$}`
/// formats it; a longer `s` is left as it is.
pub open spec fn padded(s: Seq<char>, width: nat) -> Seq<char> {
    if s.len() >= width {
        s
    } else {
        with_spaces(s, (width - s.len()) as nat)
    }
}

/// Appends `k` spaces to `out`.
pub fn push_spaces(out: &mut String, k: usize)
    ensures
        final(out)@ == with_spaces(old(out)@, k as nat),
{
    let mut i: usize = 0;
    assert(out@ =~= with_spaces(old(out)@, 0));
    while i < k
        invariant
            i <= k,
            out@ == with_spaces(old(out)@, i as nat),
        decreases k - i,
    {
        proof {
            reveal_strlit(" ");
        }
        out.append(" ");
        i = i + 1;
        assert(out@ =~= with_spaces(old(out)@, i as nat));
    }
}

/// `s` padded with spaces on the right to `width` characters (`{:<width$}`).
pub fn pad_right(s: &str, width: usize) -> (res: String)
    ensures
        res@ == padded(s@, width as nat),
{
    let n = s.unicode_len();
    let mut out = s.to_owned();
    if n < width {
        push_spaces(&mut out, width - n);
    }
    out
}

} // verus!
