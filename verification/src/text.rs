//! Text building blocks: trimming blanks, decimal numbers, joining words.

use vstd::prelude::*;
use vstd::string::StringExecFns;

verus! {

/// Whether `c` carries the Unicode property `White_Space`.
pub open spec fn is_white_space(c: char) -> bool {
    let n = c as u32;
    ||| 0x09 <= n <= 0x0D
    ||| n == 0x20
    ||| n == 0x85
    ||| n == 0xA0
    ||| n == 0x1680
    ||| 0x2000 <= n <= 0x200A
    ||| n == 0x2028
    ||| n == 0x2029
    ||| n == 0x202F
    ||| n == 0x205F
    ||| n == 0x3000
}

/// Whether `s` holds nothing but white space (the empty text included).
pub open spec fn is_blank(s: Seq<char>) -> bool {
    forall|i: int| 0 <= i < s.len() ==> is_white_space(#[trigger] s[i])
}

/// `s` without its leading white space.
pub open spec fn trim_front(s: Seq<char>) -> Seq<char>
    decreases s.len(),
{
    if s.len() > 0 && is_white_space(s.first()) {
        trim_front(s.drop_first())
    } else {
        s
    }
}

/// `s` without its trailing white space.
pub open spec fn trim_back(s: Seq<char>) -> Seq<char>
    decreases s.len(),
{
    if s.len() > 0 && is_white_space(s.last()) {
        trim_back(s.drop_last())
    } else {
        s
    }
}

/// `s` without leading and trailing white space.
pub open spec fn trimmed(s: Seq<char>) -> Seq<char> {
    trim_back(trim_front(s))
}

/// `str::trim` of the standard library: the slice that is left when the
/// leading and the trailing characters with the Unicode property
/// `White_Space` are taken away. Believed, not proved.
pub assume_specification[ str::trim ](s: &str) -> (r: &str)
    ensures
        r@ == trimmed(s@),
;

/// `String::push` of the standard library: the character is added at the
/// end. Believed, not proved.
pub assume_specification[ String::push ](s: &mut String, c: char)
    ensures
        final(s)@ == old(s)@.push(c),
;

/// A blank text stays blank when characters are taken from its front.
pub proof fn lemma_trim_front_of_blank(s: Seq<char>)
    requires
        is_blank(s),
    ensures
        trim_front(s).len() == 0,
    decreases s.len(),
{
    if s.len() > 0 {
        let rest = s.drop_first();
        assert forall|i: int| 0 <= i < rest.len() implies is_white_space(#[trigger] rest[i]) by {}
        lemma_trim_front_of_blank(rest);
    }
}

/// What `trim_front` leaves is a tail of `s` that does not start with
/// white space, and everything before it is white space.
pub proof fn lemma_trim_front_shape(s: Seq<char>)
    ensures
        trim_front(s).len() <= s.len(),
        trim_front(s) == s.subrange(s.len() - trim_front(s).len(), s.len() as int),
        trim_front(s).len() > 0 ==> !is_white_space(trim_front(s).first()),
        forall|i: int| 0 <= i < s.len() - trim_front(s).len() ==> is_white_space(#[trigger] s[i]),
    decreases s.len(),
{
    if s.len() > 0 && is_white_space(s.first()) {
        let rest = s.drop_first();
        lemma_trim_front_shape(rest);
        let t = trim_front(rest);
        assert(t == s.subrange(s.len() - t.len(), s.len() as int));
        assert forall|i: int| 0 <= i < s.len() - t.len() implies is_white_space(
            #[trigger] s[i],
        ) by {
            if i > 0 {
                assert(s[i] == rest[i - 1]);
            }
        }
    }
}

/// What `trim_back` leaves is a head of `s` that does not end in white
/// space, and everything after it is white space.
pub proof fn lemma_trim_back_shape(s: Seq<char>)
    ensures
        trim_back(s).len() <= s.len(),
        trim_back(s) == s.subrange(0, trim_back(s).len() as int),
        trim_back(s).len() > 0 ==> !is_white_space(trim_back(s).last()),
        forall|i: int| trim_back(s).len() <= i < s.len() ==> is_white_space(#[trigger] s[i]),
    decreases s.len(),
{
    if s.len() > 0 && is_white_space(s.last()) {
        let rest = s.drop_last();
        lemma_trim_back_shape(rest);
        let t = trim_back(rest);
        assert(t == s.subrange(0, t.len() as int));
        assert forall|i: int| t.len() <= i < s.len() implies is_white_space(#[trigger] s[i]) by {
            if i < s.len() - 1 {
                assert(s[i] == rest[i]);
            }
        }
    }
}

/// Trimming leaves nothing exactly of the blank texts.
pub proof fn lemma_trimmed_empty_iff_blank(s: Seq<char>)
    ensures
        trimmed(s).len() == 0 <==> is_blank(s),
{
    lemma_trim_front_shape(s);
    let f = trim_front(s);
    lemma_trim_back_shape(f);
    if is_blank(s) {
        lemma_trim_front_of_blank(s);
    }
}

/// A text that neither starts nor ends with white space is its own trim.
pub proof fn lemma_trimmed_of_tight(s: Seq<char>)
    requires
        s.len() > 0 ==> !is_white_space(s.first()) && !is_white_space(s.last()),
    ensures
        trimmed(s) == s,
{
}

/// The character of the decimal digit `d`.
pub open spec fn digit_char(d: nat) -> char
    recommends
        d < 10,
{
    ((48 + d) as u8) as char
}

/// The decimal numeral of `n`, without sign or leading zeros.
pub open spec fn decimal(n: nat) -> Seq<char>
    decreases n,
{
    if n < 10 {
        seq![digit_char(n)]
    } else {
        decimal(n / 10).push(digit_char(n % 10))
    }
}

/// Adds the decimal numeral of `n` at the end of `out`.
pub fn push_decimal(out: &mut String, n: usize)
    ensures
        final(out)@ == old(out)@ + decimal(n as nat),
    decreases n,
{
    if n >= 10 {
        push_decimal(out, n / 10);
    }
    let d: u8 = (n % 10) as u8;
    out.push((48u8 + d) as char);
}

/// The texts of `words`, in order.
pub open spec fn texts(words: Seq<String>) -> Seq<Seq<char>> {
    words.map_values(|w: String| w@)
}

/// `words` in one text, with `sep` between neighbours.
pub open spec fn joined(words: Seq<Seq<char>>, sep: Seq<char>) -> Seq<char>
    decreases words.len(),
{
    if words.len() == 0 {
        Seq::empty()
    } else if words.len() == 1 {
        words[0]
    } else {
        joined(words.drop_last(), sep) + sep + words.last()
    }
}

/// Joins `words` into one text, with `sep` between neighbours.
pub fn join(words: &Vec<String>, sep: &str) -> (r: String)
    ensures
        r@ == joined(texts(words@), sep@),
{
    let mut out = String::new();
    let mut i: usize = 0;
    while i < words.len()
        invariant
            i <= words.len(),
            out@ == joined(texts(words@).take(i as int), sep@),
        decreases words.len() - i,
    {
        if i > 0 {
            out.append(sep);
        }
        out.append(words[i].as_str());
        assert(texts(words@).take(i + 1).drop_last() =~= texts(words@).take(i as int));
        i += 1;
    }
    assert(texts(words@).take(words.len() as int) =~= texts(words@));
    out
}

/// The text of an optional field, or `fallback` where the field is absent.
pub open spec fn text_or(field: Option<Seq<char>>, fallback: Seq<char>) -> Seq<char> {
    match field {
        Some(s) => s,
        None => fallback,
    }
}

/// Adds the text of an optional field at the end of `out`, or `fallback`
/// where the field is absent.
pub fn append_or(out: &mut String, field: &Option<String>, fallback: &str)
    ensures
        final(out)@ == old(out)@ + (match *field {
            Some(s) => s@,
            None => fallback@,
        }),
{
    match field {
        Some(s) => out.append(s.as_str()),
        None => out.append(fallback),
    }
}

} // verus!
