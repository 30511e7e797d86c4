//! Small operations on strings that the rest of the crate builds on.

use vstd::prelude::*;
use vstd::string::{StrSliceExecFns, StringExecFns};

verus! {

/// Whether two string slices hold the same characters.
pub(crate) fn str_eq(a: &str, b: &str) -> (res: bool)
    ensures
        res == (a@ == b@),
{
    a.to_owned() == b.to_owned()
}

/// Appends one character. Wraps `String::push`, which puts the character at
/// the end and leaves what was there before in place.
#[verifier::external_body]
pub(crate) fn push_char(s: &mut String, c: char)
    ensures
        final(s)@ == old(s)@.push(c),
{
    s.push(c)
}

/// The text made of `a` followed by `b`.
pub fn concat2(a: &str, b: &str) -> (res: String)
    ensures
        res@ == a@ + b@,
{
    let mut res = String::from_str(a);
    res.append(b);
    res
}

/// The text made of `a`, `b` and `c` in this order.
pub fn concat3(a: &str, b: &str, c: &str) -> (res: String)
    ensures
        res@ == a@ + b@ + c@,
{
    let mut res = String::from_str(a);
    res.append(b);
    res.append(c);
    res
}


/// `i` is the place of the first `c` in `s`.
pub open spec fn is_first(s: Seq<char>, c: char, i: int) -> bool {
    &&& 0 <= i < s.len()
    &&& s[i] == c
    &&& forall|j: int| 0 <= j < i ==> s[j] != c
}

/// The place of the first `c` in `s`, counted in characters.
pub fn find_char(s: &str, c: char) -> (r: Option<usize>)
    ensures
        match r {
            Some(i) => is_first(s@, c, i as int),
            None => !s@.contains(c),
        },
{
    broadcast use vstd::string::axiom_spec_iter;

    let n = s.unicode_len();
    let mut i: usize = 0;
    for x in it: s.chars()
        invariant
            it.seq() == s@,
            n == s@.len(),
            i == it.index(),
            forall|j: int| 0 <= j < i ==> s@[j] != c,
    {
        if x == c {
            return Some(i);
        }
        i = i + 1;
    }
    None
}


/// An owned copy of `s`.
pub fn owned(s: &str) -> (r: String)
    ensures
        r@ == s@,
{
    s.to_owned()
}


/// The texts that `strings` hold.
pub open spec fn texts(strings: Seq<String>) -> Seq<Seq<char>> {
    strings.map_values(|s: String| s@)
}

/// `n` spaces.
pub open spec fn blanks(n: nat) -> Seq<char> {
    Seq::new(n, |i: int| ' ')
}

/// A text of `n` spaces.
pub fn spaces(n: usize) -> (r: String)
    ensures
        r@ == blanks(n as nat),
{
    let mut r = String::new();
    let mut i: usize = 0;
    while i < n
        invariant
            i <= n,
            r@ == blanks(i as nat),
        decreases n - i,
    {
        push_char(&mut r, ' ');
        i = i + 1;
        assert(r@ =~= blanks(i as nat));
    }
    r
}

/// The extended grapheme clusters of a text, in order: the pieces that a
/// reader takes for one character each, as Unicode's rules for text
/// segmentation cut them.
pub uninterp spec fn grapheme_clusters(s: Seq<char>) -> Seq<Seq<char>>;

/// How many places a text takes on screen when each grapheme cluster takes
/// one.
pub open spec fn width(s: Seq<char>) -> nat {
    grapheme_clusters(s).len()
}

/// The extended grapheme clusters of `s`. Calls `graphemes(true)` of
/// `unicode_segmentation`, which walks `s` from boundary to boundary and
/// hands out the piece between two boundaries; the pieces are returned as
/// owned strings in that order. What the boundaries are is left to that
/// crate: the contract only names its result.
#[verifier::external_body]
pub(crate) fn graphemes(s: &str) -> (r: Vec<String>)
    ensures
        texts(r@) == grapheme_clusters(s@),
{
    unicode_segmentation::UnicodeSegmentation::graphemes(s, true).map(|g| g.to_owned()).collect()
}

/// How many places `s` takes on screen.
pub fn display_width(s: &str) -> (n: usize)
    ensures
        n == width(s@),
{
    graphemes(s).len()
}


/// The capital of an ASCII letter, and any other character as it is.
pub open spec fn ascii_upper(c: char) -> char {
    if 'a' <= c && c <= 'z' {
        ((c as u8) - 32) as char
    } else {
        c
    }
}

/// The capital of an ASCII letter, and any other character as it is.
pub fn to_ascii_upper(c: char) -> (r: char)
    ensures
        r == ascii_upper(c),
{
    if 'a' <= c && c <= 'z' {
        ((c as u8) - 32) as char
    } else {
        c
    }
}

/// The decimal digit for `d`.
pub open spec fn digit_char(d: nat) -> char {
    (('0' as u8) + d) as char
}

/// `n` written in decimal, without leading zeros.
pub open spec fn decimal(n: nat) -> Seq<char>
    decreases n,
{
    if n < 10 {
        seq![digit_char(n)]
    } else {
        decimal(n / 10).push(digit_char(n % 10))
    }
}

/// `n` written in decimal, without leading zeros.
pub fn decimal_string(n: u64) -> (r: String)
    ensures
        r@ == decimal(n as nat),
{
    // The digits are found from the last to the first.
    let mut reversed: Vec<char> = Vec::new();
    let mut rest = n;
    assert(decimal(n as nat) =~= decimal(rest as nat) + reversed@.reverse());
    while rest >= 10
        invariant
            decimal(n as nat) == decimal(rest as nat) + reversed@.reverse(),
        decreases rest,
    {
        let d = (rest % 10) as u8;
        let c = (48u8 + d) as char;
        proof {
            let before = reversed@;
            let after = before.push(c);
            assert(c == digit_char((rest % 10) as nat));
            assert(after.reverse() =~= seq![c] + before.reverse());
            assert(decimal(rest as nat) == decimal((rest / 10) as nat).push(c));
            assert(decimal((rest / 10) as nat) + after.reverse() =~= decimal(rest as nat)
                + before.reverse());
        }
        reversed.push(c);
        rest = rest / 10;
    }
    let first = (48u8 + (rest as u8)) as char;
    let mut r = String::new();
    push_char(&mut r, first);
    let ghost tail = reversed@.reverse();
    proof {
        assert(decimal(rest as nat) =~= seq![first]);
        assert(decimal(n as nat) =~= seq![first] + tail);
    }
    let mut k: usize = reversed.len();
    while k > 0
        invariant
            k <= reversed@.len(),
            tail == reversed@.reverse(),
            r@ == seq![first] + tail.take(reversed@.len() - k),
        decreases k,
    {
        k = k - 1;
        push_char(&mut r, reversed[k]);
        assert(r@ =~= seq![first] + tail.take(reversed@.len() - k));
    }
    assert(tail.take(reversed@.len() as int) =~= tail);
    r
}


/// Whether a character is white space as Unicode defines it.
pub uninterp spec fn is_whitespace(c: char) -> bool;

/// Whether `c` is white space. Calls `char::is_whitespace`, which says
/// whether the character has Unicode's property White_Space; the contract
/// only names that answer.
#[verifier::external_body]
pub(crate) fn char_is_whitespace(c: char) -> (b: bool)
    ensures
        b == is_whitespace(c),
{
    c.is_whitespace()
}

/// A text in capitals, by Unicode's rules.
pub uninterp spec fn uppercased(s: Seq<char>) -> Seq<char>;

/// `s` in capitals. Calls `str::to_uppercase`, which replaces each character
/// by its uppercase form as Unicode gives it; the contract only names the
/// result.
#[verifier::external_body]
pub(crate) fn to_uppercase(s: &str) -> (r: String)
    ensures
        r@ == uppercased(s@),
{
    s.to_uppercase()
}

/// `s` without the white space at its start.
pub open spec fn trim_front(s: Seq<char>) -> Seq<char>
    decreases s.len(),
{
    if s.len() > 0 && is_whitespace(s[0]) {
        trim_front(s.drop_first())
    } else {
        s
    }
}

/// `s` without the white space at its end.
pub open spec fn trim_back(s: Seq<char>) -> Seq<char>
    decreases s.len(),
{
    if s.len() > 0 && is_whitespace(s.last()) {
        trim_back(s.drop_last())
    } else {
        s
    }
}

/// `s` without the white space at its start and at its end.
pub open spec fn trimmed(s: Seq<char>) -> Seq<char> {
    trim_back(trim_front(s))
}

/// Cutting `a` leading white-space characters off `s` is trimming its front,
/// where the character after them is none.
pub proof fn lemma_trim_front(s: Seq<char>, a: int)
    requires
        0 <= a <= s.len(),
        forall|j: int| 0 <= j < a ==> is_whitespace(s[j]),
        a < s.len() ==> !is_whitespace(s[a]),
    ensures
        trim_front(s) == s.skip(a),
    decreases a,
{
    if a == 0 {
        assert(s.skip(0) =~= s);
    } else {
        let rest = s.drop_first();
        assert forall|j: int| 0 <= j < a - 1 implies is_whitespace(rest[j]) by {
            assert(rest[j] == s[j + 1]);
        }
        lemma_trim_front(rest, a - 1);
        assert(rest.skip(a - 1) =~= s.skip(a));
    }
}

/// Keeping the first `b` characters of `s` is trimming its back, where
/// those after them are white space and the one before them is none.
pub proof fn lemma_trim_back(s: Seq<char>, b: int)
    requires
        0 <= b <= s.len(),
        forall|j: int| b <= j < s.len() ==> is_whitespace(s[j]),
        b > 0 ==> !is_whitespace(s[b - 1]),
    ensures
        trim_back(s) == s.take(b),
    decreases s.len() - b,
{
    if b == s.len() {
        assert(s.take(b) =~= s);
    } else {
        let rest = s.drop_last();
        lemma_trim_back(rest, b);
        assert(rest.take(b) =~= s.take(b));
    }
}

/// The characters of `chars` without the white space at their start and at
/// their end.
pub fn trim_chars(chars: &Vec<char>) -> (r: String)
    ensures
        r@ == trimmed(chars@),
{
    let n = chars.len();
    let mut a: usize = 0;
    while a < n && char_is_whitespace(chars[a])
        invariant
            n == chars@.len(),
            a <= n,
            forall|j: int| 0 <= j < a ==> is_whitespace(chars@[j]),
        decreases n - a,
    {
        a = a + 1;
    }
    let mut b: usize = n;
    while b > a && char_is_whitespace(chars[b - 1])
        invariant
            n == chars@.len(),
            a <= b <= n,
            forall|j: int| b <= j < n ==> is_whitespace(chars@[j]),
        decreases b,
    {
        b = b - 1;
    }
    proof {
        lemma_trim_front(chars@, a as int);
        let front = chars@.skip(a as int);
        assert forall|j: int| b - a <= j < front.len() implies is_whitespace(front[j]) by {
            assert(front[j] == chars@[j + a]);
        }
        if b > a {
            assert(front[b - a - 1] == chars@[b - 1]);
        }
        lemma_trim_back(front, b - a);
        assert(front.take(b - a) =~= chars@.subrange(a as int, b as int));
    }
    let mut r = String::new();
    let mut k: usize = a;
    while k < b
        invariant
            a <= k <= b <= chars@.len(),
            r@ == chars@.subrange(a as int, k as int),
        decreases b - k,
    {
        push_char(&mut r, chars[k]);
        k = k + 1;
        assert(r@ =~= chars@.subrange(a as int, k as int));
    }
    r
}

/// `s` filled with spaces at its end up to `width` characters. A text that
/// is as long or longer stays as it is.
pub open spec fn padded_right(s: Seq<char>, width: nat) -> Seq<char> {
    if s.len() >= width {
        s
    } else {
        s + blanks((width - s.len()) as nat)
    }
}

/// `s` filled with spaces at its start up to `width` characters. A text
/// that is as long or longer stays as it is.
pub open spec fn padded_left(s: Seq<char>, width: nat) -> Seq<char> {
    if s.len() >= width {
        s
    } else {
        blanks((width - s.len()) as nat) + s
    }
}

/// `s` filled with spaces at its end up to `width` characters.
pub fn pad_right(s: &str, width: usize) -> (r: String)
    ensures
        r@ == padded_right(s@, width as nat),
{
    let n = s.unicode_len();
    if n >= width {
        owned(s)
    } else {
        let fill = spaces(width - n);
        concat2(s, fill.as_str())
    }
}

/// `s` filled with spaces at its start up to `width` characters.
pub fn pad_left(s: &str, width: usize) -> (r: String)
    ensures
        r@ == padded_left(s@, width as nat),
{
    let n = s.unicode_len();
    if n >= width {
        owned(s)
    } else {
        let fill = spaces(width - n);
        concat2(fill.as_str(), s)
    }
}


/// A text whose tab-separated cells are set in columns, as `tabwriter` sets
/// them with the settings it starts from: a column runs over neighbouring
/// lines that have a cell in it, and is as wide as the widest of these cells
/// and at least 2 wide; every cell but the last of its line is filled with
/// spaces to that width and 2 more.
pub uninterp spec fn tab_aligned(s: Seq<char>) -> Seq<char>;

/// `text` with its tab-separated cells set in columns. Writes `text` to a
/// `TabWriter` of `tabwriter` as `TabWriter::new` makes it, over a buffer in
/// memory, and returns what the writer has put there once it is flushed.
/// How wide the columns come out is left to that crate: the contract only
/// names the result.
#[verifier::external_body]
pub(crate) fn tabulate(text: &str) -> (r: String)
    ensures
        r@ == tab_aligned(text@),
{
    let mut writer = tabwriter::TabWriter::new(Vec::new());
    std::io::Write::write_all(&mut writer, text.as_bytes()).unwrap();
    String::from_utf8(writer.into_inner().unwrap()).unwrap()
}

/// The standard base64 form, with padding, of the bytes of a text.
pub uninterp spec fn base64_of(s: Seq<char>) -> Seq<char>;

/// The bytes of `text` in base64. Calls `base64::encode`, which encodes with
/// the standard alphabet and padding; the contract only names the result.
#[verifier::external_body]
pub(crate) fn base64_encode(text: &str) -> (r: String)
    ensures
        r@ == base64_of(text@),
{
    base64::encode(text)
}


/// `n` written in decimal, with `-` before it where it is negative.
pub open spec fn signed_decimal(n: int) -> Seq<char> {
    if n < 0 {
        "-"@ + decimal((-n) as nat)
    } else {
        decimal(n as nat)
    }
}

/// `n` written in decimal, with `-` before it where it is negative.
pub fn signed_decimal_string(n: i64) -> (r: String)
    ensures
        r@ == signed_decimal(n as int),
{
    if n < 0 {
        let magnitude: u64 = (0 - n as i128) as u64;
        let digits = decimal_string(magnitude);
        concat2("-", digits.as_str())
    } else {
        decimal_string(n as u64)
    }
}

/// `pattern` stands in `s` at the place `i`.
pub open spec fn occurs_at(s: Seq<char>, pattern: Seq<char>, i: int) -> bool {
    0 <= i && i + pattern.len() <= s.len() && s.subrange(i, i + pattern.len()) == pattern
}

/// `i` is the first place at which `pattern` stands in `s`.
pub open spec fn is_first_occurrence(s: Seq<char>, pattern: Seq<char>, i: int) -> bool {
    occurs_at(s, pattern, i) && forall|j: int| 0 <= j < i ==> !occurs_at(s, pattern, j)
}

/// The characters of `s`.
pub fn chars_of(s: &str) -> (r: Vec<char>)
    ensures
        r@ == s@,
{
    broadcast use vstd::string::axiom_spec_iter;

    let mut r: Vec<char> = Vec::new();
    for c in it: s.chars()
        invariant
            it.seq() == s@,
            r@ == s@.take(it.index()),
    {
        r.push(c);
        assert(r@ =~= s@.take(it.index() + 1));
    }
    assert(s@.take(s@.len() as int) =~= s@);
    r
}

/// The first place at which `pattern` stands in `s`, counted in characters.
pub fn find_str(s: &str, pattern: &str) -> (r: Option<usize>)
    ensures
        match r {
            Some(i) => is_first_occurrence(s@, pattern@, i as int),
            None => forall|j: int| !occurs_at(s@, pattern@, j),
        },
{
    let text = chars_of(s);
    let wanted = chars_of(pattern);
    let n = text.len();
    let m = wanted.len();
    if m > n {
        return None;
    }
    let mut i: usize = 0;
    while i <= n - m
        invariant
            n == text@.len(),
            m == wanted@.len(),
            m <= n,
            text@ == s@,
            wanted@ == pattern@,
            i <= n - m + 1,
            forall|j: int| 0 <= j < i ==> !occurs_at(s@, pattern@, j),
        decreases n - m + 1 - i,
    {
        let mut k: usize = 0;
        while k < m && text[i + k] == wanted[k]
            invariant
                n == text@.len(),
                m == wanted@.len(),
                i + m <= n,
                k <= m,
                forall|t: int| 0 <= t < k ==> text@[i + t] == wanted@[t],
            decreases m - k,
        {
            k = k + 1;
        }
        if k == m {
            assert(text@.subrange(i as int, i + m) =~= wanted@);
            return Some(i);
        }
        assert(!occurs_at(s@, pattern@, i as int)) by {
            if occurs_at(s@, pattern@, i as int) {
                assert(s@.subrange(i as int, i + m)[k as int] == pattern@[k as int]);
            }
        }
        i = i + 1;
    }
    None
}

} // verus!
