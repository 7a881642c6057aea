//! Text: what the job page composes, searches and cuts.
use vstd::prelude::*;
use vstd::string::*;
use vstd::utf8::{
    decode_utf8, encode_scalar, encode_utf8, encode_utf8_decode_utf8, encode_utf8_first_scalar,
    encode_utf8_valid_utf8, is_char_boundary, pop_first_scalar,
};

verus! {

/// The text of an optional string.
pub open spec fn opt_text(s: Option<String>) -> Option<Seq<char>> {
    match s {
        Some(s) => Some(s@),
        None => None,
    }
}

/// The texts of a list of strings.
pub open spec fn texts(list: Seq<String>) -> Seq<Seq<char>> {
    Seq::new(list.len(), |i: int| list[i]@)
}

/// `a`, then `b`.
pub fn join2(a: &str, b: &str) -> (r: String)
    ensures
        r@ == a@ + b@,
{
    a.to_string().concat(b)
}

/// `a`, then `b`, then `c`.
pub fn join3(a: &str, b: &str, c: &str) -> (r: String)
    ensures
        r@ == a@ + b@ + c@,
{
    a.to_string().concat(b).concat(c)
}

/// `a`, then `b`, then `c`, then `d`.
pub fn join4(a: &str, b: &str, c: &str, d: &str) -> (r: String)
    ensures
        r@ == a@ + b@ + c@ + d@,
{
    a.to_string().concat(b).concat(c).concat(d)
}

/// Whether two texts are the same.
pub fn same_text(a: &str, b: &str) -> (r: bool)
    ensures
        r == (a@ == b@),
{
    a.to_string() == b.to_string()
}

/// The characters of `s`.
pub fn chars_of(s: &str) -> (r: Vec<char>)
    ensures
        r@ == s@,
{
    let mut r: Vec<char> = Vec::new();
    for c in it: s.chars()
        invariant
            it.seq() == s@,
            r@ == s@.take(it.index() as int),
    {
        r.push(c);
    }
    r
}

/// Whether `needle` occurs somewhere in `hay`.
pub open spec fn occurs(hay: Seq<char>, needle: Seq<char>) -> bool {
    exists|i: int|
        0 <= i && i + needle.len() <= hay.len() && #[trigger] hay.subrange(i, i + needle.len())
            == needle
}

/// Whether `needle` occurs somewhere in `hay`.
pub fn contains(hay: &str, needle: &str) -> (r: bool)
    ensures
        r == occurs(hay@, needle@),
{
    let h = chars_of(hay);
    let n = chars_of(needle);
    if n.len() > h.len() {
        return false;
    }
    let last: usize = h.len() - n.len();
    let mut i: usize = 0;
    while i <= last
        invariant
            h@ == hay@,
            n@ == needle@,
            n.len() <= h.len(),
            last == h.len() - n.len(),
            i <= last + 1,
            forall|k: int| 0 <= k < i ==> #[trigger] h@.subrange(k, k + n@.len()) != n@,
        decreases last + 1 - i,
    {
        let mut j: usize = 0;
        while j < n.len() && h[i + j] == n[j]
            invariant
                h@ == hay@,
                n@ == needle@,
                n.len() <= h.len(),
                last == h.len() - n.len(),
                i <= last,
                j <= n.len(),
                forall|k: int| 0 <= k < j ==> h@[i + k] == n@[k],
            decreases n.len() - j,
        {
            j = j + 1;
        }
        if j == n.len() {
            assert(h@.subrange(i as int, i + n@.len()) =~= n@);
            return true;
        }
        assert(h@.subrange(i as int, i + n@.len())[j as int] != n@[j as int]);
        if i == last {
            return false;
        }
        i = i + 1;
    }
    false
}

/// `name` with a dash for every underscore.
pub open spec fn dashed_text(name: Seq<char>) -> Seq<char> {
    Seq::new(
        name.len(),
        |i: int|
            if name[i] == '_' {
                '-'
            } else {
                name[i]
            },
    )
}

/// `name` with a dash for every underscore.
pub fn dashed(name: &str) -> (r: String)
    ensures
        r@ == dashed_text(name@),
{
    let n: usize = name.unicode_len();
    let mut r = String::new();
    let mut i: usize = 0;
    while i < n
        invariant
            n == name@.len(),
            i <= n,
            r@ == dashed_text(name@).take(i as int),
        decreases n - i,
    {
        if name.get_char(i) == '_' {
            proof {
                reveal_strlit("-");
            }
            r.append("-");
        } else {
            r.append(name.substring_char(i, i + 1));
        }
        i = i + 1;
        assert(r@ =~= dashed_text(name@).take(i as int));
    }
    assert(dashed_text(name@).take(n as int) =~= dashed_text(name@));
    r
}

/// A row of `n` dots.
pub open spec fn dots_text(n: nat) -> Seq<char> {
    Seq::new(n, |i: int| '.')
}

/// A row of `n` dots.
pub fn dots(n: usize) -> (r: String)
    ensures
        r@ == dots_text(n as nat),
{
    let mut r = String::new();
    let mut i: usize = 0;
    while i < n
        invariant
            i <= n,
            r@ == dots_text(i as nat),
        decreases n - i,
    {
        proof {
            reveal_strlit(".");
        }
        r.append(".");
        i = i + 1;
        assert(r@ =~= dots_text(i as nat));
    }
    r
}

/// Unicode white space.
pub open spec fn is_white_space(c: char) -> bool {
    ||| '\u{9}' <= c <= '\u{d}'
    ||| c == ' '
    ||| c == '\u{85}'
    ||| c == '\u{a0}'
    ||| c == '\u{1680}'
    ||| '\u{2000}' <= c <= '\u{200a}'
    ||| c == '\u{2028}'
    ||| c == '\u{2029}'
    ||| c == '\u{202f}'
    ||| c == '\u{205f}'
    ||| c == '\u{3000}'
}

/// Whether `s` holds nothing but white space.
pub open spec fn is_blank_text(s: Seq<char>) -> bool {
    forall|i: int| 0 <= i < s.len() ==> is_white_space(#[trigger] s[i])
}

/// Whether `s` holds nothing but white space.
pub fn is_blank(s: &str) -> (r: bool)
    ensures
        r == is_blank_text(s@),
{
    let chars = chars_of(s);
    let mut i: usize = 0;
    while i < chars.len()
        invariant
            chars@ == s@,
            i <= chars.len(),
            forall|k: int| 0 <= k < i ==> is_white_space(#[trigger] s@[k]),
        decreases chars.len() - i,
    {
        let c = chars[i];
        let white: bool = ('\u{9}' <= c && c <= '\u{d}') || c == ' ' || c == '\u{85}' || c
            == '\u{a0}' || c == '\u{1680}' || ('\u{2000}' <= c && c <= '\u{200a}') || c
            == '\u{2028}' || c == '\u{2029}' || c == '\u{202f}' || c == '\u{205f}' || c
            == '\u{3000}';
        if !white {
            assert(!is_white_space(s@[i as int]));
            return false;
        }
        i = i + 1;
    }
    true
}

/// How many bytes of a log an error message quotes.
pub const LOG_LIMIT: usize = 1000;

/// Whether `log` can be cut for quoting: it is short, or the limit does not fall
/// inside a character.
pub open spec fn can_quote(log: Seq<char>) -> bool {
    encode_utf8(log).len() <= LOG_LIMIT || is_char_boundary(encode_utf8(log), LOG_LIMIT as int)
}

/// A log as an error message quotes it: whole up to the limit, else the text of its
/// first bytes and a mark.
pub open spec fn quoted_log_text(log: Seq<char>) -> Seq<char> {
    if encode_utf8(log).len() > LOG_LIMIT {
        decode_utf8(encode_utf8(log).subrange(0, LOG_LIMIT as int)) + "... (truncated)"@
    } else {
        log
    }
}

/// Whether `log` can be cut for quoting.
pub fn is_quotable(log: &str) -> (r: bool)
    ensures
        r == can_quote(log@),
{
    let n: usize = log.as_bytes().len();
    n <= LOG_LIMIT || log.is_char_boundary(LOG_LIMIT)
}

/// `log` as an error message quotes it.
pub fn quoted_log(log: &str) -> (r: String)
    requires
        can_quote(log@),
    ensures
        r@ == quoted_log_text(log@),
{
    let n: usize = log.as_bytes().len();
    if n > LOG_LIMIT {
        let (head, _rest) = log.split_at(LOG_LIMIT);
        proof {
            encode_utf8_decode_utf8(head@);
        }
        head.to_string().concat("... (truncated)")
    } else {
        log.to_string()
    }
}

proof fn lemma_boundary(s: Seq<char>, n: int)
    requires
        0 <= n,
        is_char_boundary(encode_utf8(s), n),
    ensures
        exists|k: int|
            0 <= k <= s.len() && #[trigger] encode_utf8(s.take(k)) == encode_utf8(s).subrange(0, n),
        n <= encode_utf8(s).len(),
    decreases s.len(),
{
    let bytes = encode_utf8(s);
    encode_utf8_valid_utf8(s);
    if n == 0 {
        assert(encode_utf8(s.take(0)) =~= bytes.subrange(0, 0));
    } else if s.len() > 0 {
        let rest = s.drop_first();
        let first = encode_scalar(s[0] as u32);
        encode_utf8_first_scalar(s);
        assert(pop_first_scalar(bytes) =~= encode_utf8(rest));
        assert(is_char_boundary(encode_utf8(rest), n - first.len()));
        if n < first.len() {
            encode_utf8_valid_utf8(rest);
            assert(false);
        }
        lemma_boundary(rest, n - first.len());
        let k = choose|k: int|
            0 <= k <= rest.len() && #[trigger] encode_utf8(rest.take(k)) == encode_utf8(
                rest,
            ).subrange(0, n - first.len());
        assert(s.take(k + 1).drop_first() =~= rest.take(k));
        assert(encode_utf8(s.take(k + 1)) =~= bytes.subrange(0, n));
    }
}

/// A log beyond the limit is quoted by its first characters, as many as fill the
/// limit, and the mark.
pub proof fn quoted_log_keeps_the_head(log: Seq<char>)
    requires
        can_quote(log),
        encode_utf8(log).len() > LOG_LIMIT,
    ensures
        exists|k: int|
            {
                &&& 0 <= k < log.len()
                &&& #[trigger] encode_utf8(log.take(k)).len() == LOG_LIMIT
                &&& quoted_log_text(log) == log.take(k) + "... (truncated)"@
            },
{
    lemma_boundary(log, LOG_LIMIT as int);
    let k = choose|k: int|
        0 <= k <= log.len() && #[trigger] encode_utf8(log.take(k)) == encode_utf8(log).subrange(
            0,
            LOG_LIMIT as int,
        );
    encode_utf8_decode_utf8(log.take(k));
    if k == log.len() {
        assert(log.take(k) =~= log);
    }
    assert(encode_utf8(log.take(k)).len() == LOG_LIMIT);
}

/// A log of up to a thousand bytes is quoted whole, and it can always be. A longer one can
/// be quoted where its thousandth byte ends a character; its quotation begins with the
/// characters of these bytes and ends in a mark.
pub proof fn log_is_quoted_up_to_a_thousand_bytes(log: Seq<char>)
    ensures
        encode_utf8(log).len() <= 1000 ==> can_quote(log) && quoted_log_text(log) == log,
        encode_utf8(log).len() > 1000 ==> (can_quote(log) <==> is_char_boundary(
            encode_utf8(log),
            1000,
        )),
        encode_utf8(log).len() > 1000 && can_quote(log) ==> exists|k: int|
            {
                &&& 0 <= k < log.len()
                &&& #[trigger] encode_utf8(log.take(k)).len() == 1000
                &&& quoted_log_text(log) == log.take(k) + "... (truncated)"@
            },
{
    if encode_utf8(log).len() > 1000 && can_quote(log) {
        quoted_log_keeps_the_head(log);
    }
}

/// A text occurs in another just where the other is made of something before it, the text
/// and something behind it.
pub proof fn text_occurs_as_a_part(head: Seq<char>, needle: Seq<char>, tail: Seq<char>)
    ensures
        occurs(head + needle + tail, needle),
        forall|hay: Seq<char>| #[trigger]
            occurs(hay, needle) ==> exists|i: int|
                {
                    &&& 0 <= i <= i + needle.len() <= hay.len()
                    &&& hay == #[trigger] hay.take(i) + needle + hay.skip(i + needle.len())
                },
{
    let hay = head + needle + tail;
    assert(hay.subrange(head.len() as int, head.len() as int + needle.len()) =~= needle);
    assert forall|hay: Seq<char>| #[trigger] occurs(hay, needle) implies exists|i: int|
        {
            &&& 0 <= i <= i + needle.len() <= hay.len()
            &&& hay == #[trigger] hay.take(i) + needle + hay.skip(i + needle.len())
        } by {
        let i = choose|i: int|
            0 <= i && i + needle.len() <= hay.len() && #[trigger] hay.subrange(
                i,
                i + needle.len(),
            ) == needle;
        assert(hay =~= hay.take(i) + hay.subrange(i, i + needle.len()) + hay.skip(
            i + needle.len(),
        ));
    }
}

/// A row of dots holds as many characters as it is to, each of them a dot. A name with
/// dashes differs from the name in its underscores alone. A text is blank if and only if it
/// holds no character but white space.
pub proof fn texts_hold_what_they_are_to(n: nat, name: Seq<char>, i: int)
    ensures
        dots_text(n).len() == n,
        0 <= i < n ==> dots_text(n)[i] == '.',
        dashed_text(name).len() == name.len(),
        0 <= i < name.len() && name[i] == '_' ==> dashed_text(name)[i] == '-',
        0 <= i < name.len() && name[i] != '_' ==> dashed_text(name)[i] == name[i],
        is_blank_text(name) && 0 <= i < name.len() ==> is_white_space(name[i]),
        !is_blank_text(name) ==> exists|k: int|
            0 <= k < name.len() && !is_white_space(#[trigger] name[k]),
{
}

/// `s` as the standard library's `Debug` writes a string: in double quotes, with
/// escapes.
pub uninterp spec fn debug_text(s: Seq<char>) -> Seq<char>;

/// `format!("{:?}", s)`, that is `<str as core::fmt::Debug>::fmt`: the text depends
/// on the characters of `s` alone. Which characters it escapes, and how, is left
/// unsaid.
#[verifier::external_body]
pub(crate) fn debug(s: &str) -> (r: String)
    ensures
        r@ == debug_text(s@),
{
    format!("{:?}", s)
}

} // verus!
