//! Text handling shared by the protocol machines: substring search, line
//! splitting, decimal rendering and incremental UTF-8 decoding.
//!
//! Text is modelled as `Seq<char>` and raw channel payloads as `Seq<u8>`.

use vstd::prelude::*;
use vstd::std_specs::iter::IteratorSpec;
use vstd::utf8::*;

verus! {

/// What `str::to_lowercase` returns for the text `s`.
pub uninterp spec fn lowercase_of(s: Seq<char>) -> Seq<char>;

/// What `str::trim` returns for the text `s`.
pub uninterp spec fn trimmed_of(s: Seq<char>) -> Seq<char>;

/// What `String::from_utf8_lossy` returns for the bytes `bytes`.
pub uninterp spec fn lossy_text_of(bytes: Seq<u8>) -> Seq<char>;

/// Trusted: calls `str::to_lowercase`. Nothing is claimed of the result beyond
/// its being a function of the input text, named `lowercase_of`.
#[verifier::external_body]
pub(crate) fn to_lowercase(s: &str) -> (r: String)
    ensures
        r@ == lowercase_of(s@),
{
    s.to_lowercase()
}

/// Trusted: calls `str::trim`. Nothing is claimed of the result beyond its
/// being a function of the input text, named `trimmed_of`.
#[verifier::external_body]
pub(crate) fn trim<'a>(s: &'a str) -> (r: &'a str)
    ensures
        r@ == trimmed_of(s@),
{
    s.trim()
}

/// Trusted: calls `String::from_utf8_lossy`. Nothing is claimed of the result
/// beyond its being a function of the input bytes, named `lossy_text_of`.
#[verifier::external_body]
pub(crate) fn from_utf8_lossy(bytes: &[u8]) -> (r: String)
    ensures
        r@ == lossy_text_of(bytes@),
{
    String::from_utf8_lossy(bytes).into_owned()
}

/// Trusted: calls `std::str::from_utf8` and, on failure, reads
/// `Utf8Error::valid_up_to`. Claims what their documentation states: the call
/// succeeds exactly on well-formed UTF-8 and then yields the decoded text;
/// otherwise the reported index is the greatest one up to which the input is
/// well-formed.
#[verifier::external_body]
pub(crate) fn from_utf8<'a>(bytes: &'a [u8]) -> (r: Result<&'a str, usize>)
    ensures
        match r {
            Ok(s) => valid_utf8(bytes@) && s@ == decode_utf8(bytes@),
            Err(n) => {
                &&& !valid_utf8(bytes@)
                &&& n <= bytes@.len()
                &&& valid_utf8(bytes@.take(n as int))
                &&& forall|m: int| n < m <= bytes@.len() ==> !valid_utf8(#[trigger] bytes@.take(m))
            },
        },
{
    match std::str::from_utf8(bytes) {
        Ok(s) => Ok(s),
        Err(e) => Err(e.valid_up_to()),
    }
}

/// Trusted: calls `String::push`, which appends one character.
#[verifier::external_body]
pub(crate) fn push_char(s: &mut String, c: char)
    ensures
        final(s)@ == old(s)@.push(c),
{
    s.push(c)
}

/// The characters of `s`, in order.
pub fn chars_of(s: &str) -> (out: Vec<char>)
    ensures
        out@ == s@,
{
    let mut out: Vec<char> = Vec::new();
    let it0 = s.chars();
    for c in it: it0
        invariant
            out@ == s@.take(it.index() as int),
            it.seq() == s@,
    {
        out.push(c);
        proof {
            assert(s@.take(it.index() + 1) == s@.take(it.index() as int).push(c));
        }
    }
    out
}

/// `pattern` occurs in `text` at position `at`.
pub open spec fn occurs_at(text: Seq<char>, pattern: Seq<char>, at: int) -> bool {
    &&& 0 <= at
    &&& at + pattern.len() <= text.len()
    &&& text.subrange(at, at + pattern.len()) == pattern
}

/// `pattern` occurs somewhere in `text`.
pub open spec fn contains_text(text: Seq<char>, pattern: Seq<char>) -> bool {
    exists|at: int| occurs_at(text, pattern, at)
}

fn matches_at(text: &Vec<char>, pattern: &Vec<char>, at: usize) -> (r: bool)
    requires
        at + pattern.len() <= text.len(),
    ensures
        r == occurs_at(text@, pattern@, at as int),
{
    let mut j: usize = 0;
    while j < pattern.len()
        invariant
            j <= pattern.len(),
            at + pattern.len() <= text.len(),
            forall|k: int| 0 <= k < j ==> text@[at + k] == pattern@[k],
        decreases pattern.len() - j,
    {
        if text[at + j] != pattern[j] {
            proof {
                assert(text@.subrange(at as int, at + pattern.len())[j as int] == text@[at + j]);
            }
            return false;
        }
        j += 1;
    }
    proof {
        assert(text@.subrange(at as int, at + pattern.len()) =~= pattern@);
    }
    true
}

/// Substring search over character vectors.
pub fn contains_chars(text: &Vec<char>, pattern: &Vec<char>) -> (r: bool)
    ensures
        r == contains_text(text@, pattern@),
{
    if pattern.len() > text.len() {
        return false;
    }
    let last: usize = text.len() - pattern.len();
    let mut at: usize = 0;
    loop
        invariant
            last == text.len() - pattern.len(),
            at <= last,
            forall|k: int| 0 <= k < at ==> !occurs_at(text@, pattern@, k),
        ensures
            at == last,
            forall|k: int| 0 <= k <= last ==> !occurs_at(text@, pattern@, k),
        decreases last - at,
    {
        if matches_at(text, pattern, at) {
            return true;
        }
        if at == last {
            break;
        }
        at += 1;
    }
    false
}

/// Substring search: whether `pattern` occurs in `text`.
pub fn contains(text: &str, pattern: &str) -> (r: bool)
    ensures
        r == contains_text(text@, pattern@),
{
    let t = chars_of(text);
    let p = chars_of(pattern);
    contains_chars(&t, &p)
}

/// The views of a sequence of strings.
pub open spec fn texts(lines: Seq<String>) -> Seq<Seq<char>> {
    Seq::new(lines.len(), |i: int| lines[i]@)
}

/// `s` cut at every line feed. There is always at least one piece; a line
/// feed closes the current piece and opens a new, empty one.
pub open spec fn split_lines(s: Seq<char>) -> Seq<Seq<char>>
    decreases s.len(),
{
    if s.len() == 0 {
        seq![Seq::<char>::empty()]
    } else {
        let before = split_lines(s.drop_last());
        if s.last() == '\n' {
            before.push(Seq::<char>::empty())
        } else {
            before.drop_last().push(before.last().push(s.last()))
        }
    }
}

/// Cuts `s` at every line feed.
pub fn lines_of(s: &str) -> (out: Vec<String>)
    ensures
        texts(out@) == split_lines(s@),
{
    let mut done: Vec<String> = Vec::new();
    let mut current = String::new();
    let it0 = s.chars();
    for c in it: it0
        invariant
            it.seq() == s@,
            split_lines(s@.take(it.index() as int)) == texts(done@).push(current@),
    {
        proof {
            let i = it.index() as int;
            assert(s@.take(i + 1).drop_last() == s@.take(i));
            assert(s@.take(i + 1).last() == c);
        }
        if c == '\n' {
            let ghost before = texts(done@);
            let ghost cur = current@;
            done.push(current);
            current = String::new();
            proof {
                assert(texts(done@) =~= before.push(cur));
            }
        } else {
            let ghost before = texts(done@).push(current@);
            push_char(&mut current, c);
            proof {
                assert(before.drop_last() =~= texts(done@));
            }
        }
    }
    proof {
        assert(s@.take(s@.len() as int) == s@);
    }
    let ghost before = texts(done@);
    let ghost cur = current@;
    done.push(current);
    proof {
        assert(texts(done@) =~= before.push(cur));
    }
    done
}

/// The character for one decimal digit.
pub open spec fn digit_char(d: int) -> char {
    if d == 0 {
        '0'
    } else if d == 1 {
        '1'
    } else if d == 2 {
        '2'
    } else if d == 3 {
        '3'
    } else if d == 4 {
        '4'
    } else if d == 5 {
        '5'
    } else if d == 6 {
        '6'
    } else if d == 7 {
        '7'
    } else if d == 8 {
        '8'
    } else {
        '9'
    }
}

/// The decimal numeral of `n`, without sign or leading zeros.
pub open spec fn decimal(n: nat) -> Seq<char>
    decreases n,
{
    if n < 10 {
        seq![digit_char(n as int)]
    } else {
        decimal(n / 10).push(digit_char((n % 10) as int))
    }
}

fn digit(d: u64) -> (c: char)
    requires
        d < 10,
    ensures
        c == digit_char(d as int),
{
    if d == 0 {
        '0'
    } else if d == 1 {
        '1'
    } else if d == 2 {
        '2'
    } else if d == 3 {
        '3'
    } else if d == 4 {
        '4'
    } else if d == 5 {
        '5'
    } else if d == 6 {
        '6'
    } else if d == 7 {
        '7'
    } else if d == 8 {
        '8'
    } else {
        '9'
    }
}

/// Appends the decimal numeral of `n` to `out`.
pub fn push_decimal(out: &mut String, n: u64)
    ensures
        final(out)@ == old(out)@ + decimal(n as nat),
    decreases n,
{
    if n >= 10 {
        push_decimal(out, n / 10);
    }
    push_char(out, digit(n % 10));
    proof {
        if n >= 10 {
            assert(final(out)@ =~= old(out)@ + decimal(n as nat));
        } else {
            assert(final(out)@ =~= old(out)@ + decimal(n as nat));
        }
    }
}

/// The decimal numeral of `n` as a string.
pub fn decimal_string(n: u64) -> (r: String)
    ensures
        r@ == decimal(n as nat),
{
    let mut out = String::new();
    push_decimal(&mut out, n);
    proof {
        assert(Seq::<char>::empty() + decimal(n as nat) =~= decimal(n as nat));
    }
    out
}

/// Length of the longest prefix of `bytes` that is well-formed UTF-8: scalars
/// are taken from the front for as long as the next one is well-formed.
pub open spec fn valid_prefix_len(bytes: Seq<u8>) -> int
    decreases bytes.len(),
{
    if bytes.len() > 0 && valid_first_scalar(bytes) {
        length_of_first_scalar(bytes) + valid_prefix_len(pop_first_scalar(bytes))
    } else {
        0
    }
}

/// The text held by the longest well-formed prefix of `bytes`.
pub open spec fn decoded_prefix(bytes: Seq<u8>) -> Seq<char> {
    decode_utf8(bytes.take(valid_prefix_len(bytes)))
}

/// The bytes left over after the longest well-formed prefix of `bytes`.
pub open spec fn undecoded_rest(bytes: Seq<u8>) -> Seq<u8> {
    bytes.skip(valid_prefix_len(bytes))
}

/// The prefix measured by `valid_prefix_len` lies within `bytes` and is
/// well-formed.
pub proof fn lemma_valid_prefix_is_valid(bytes: Seq<u8>)
    ensures
        0 <= valid_prefix_len(bytes) <= bytes.len(),
        valid_utf8(bytes.take(valid_prefix_len(bytes))),
    decreases bytes.len(),
{
    if bytes.len() > 0 && valid_first_scalar(bytes) {
        let k = length_of_first_scalar(bytes);
        let rest = pop_first_scalar(bytes);
        lemma_valid_prefix_is_valid(rest);
        let n = valid_prefix_len(rest);
        let p = bytes.take(k + n);
        assert(valid_first_scalar(p));
        assert(pop_first_scalar(p) =~= rest.take(n));
    } else {
        assert(bytes.take(0) =~= Seq::<u8>::empty());
    }
}

/// No well-formed prefix of `bytes` is longer than `valid_prefix_len(bytes)`.
pub proof fn lemma_valid_prefix_is_longest(bytes: Seq<u8>, m: int)
    requires
        0 <= m <= bytes.len(),
        valid_utf8(bytes.take(m)),
    ensures
        m <= valid_prefix_len(bytes),
    decreases bytes.len(),
{
    if m > 0 {
        let p = bytes.take(m);
        assert(valid_first_scalar(p));
        assert(valid_first_scalar(bytes));
        let k = length_of_first_scalar(bytes);
        assert(k == length_of_first_scalar(p));
        let rest = pop_first_scalar(bytes);
        assert(pop_first_scalar(p) =~= rest.take(m - k));
        lemma_valid_prefix_is_longest(rest, m - k);
    } else {
        lemma_valid_prefix_is_valid(bytes);
    }
}

/// Decodes as much of `bytes` as is well-formed UTF-8, from the front.
/// Returns the decoded text and the number of bytes it took.
pub fn decode_prefix(bytes: &[u8]) -> (r: (String, usize))
    ensures
        r.1 == valid_prefix_len(bytes@),
        r.0@ == decoded_prefix(bytes@),
{
    proof {
        lemma_valid_prefix_is_valid(bytes@);
    }
    match from_utf8(bytes) {
        Ok(s) => {
            proof {
                assert(bytes@.take(bytes@.len() as int) == bytes@);
                lemma_valid_prefix_is_longest(bytes@, bytes@.len() as int);
            }
            (s.to_owned(), bytes.len())
        },
        Err(n) => {
            proof {
                lemma_valid_prefix_is_longest(bytes@, n as int);
            }
            if n > 0 {
                let head = vstd::slice::slice_subrange(bytes, 0, n);
                proof {
                    assert(head@ == bytes@.take(n as int));
                }
                match from_utf8(head) {
                    Ok(s) => (s.to_owned(), n),
                    Err(_) => (String::new(), 0),
                }
            } else {
                proof {
                    assert(bytes@.take(0) =~= Seq::<u8>::empty());
                }
                (String::new(), 0)
            }
        },
    }
}

/// Decoding distributes over the concatenation of well-formed byte strings.
pub proof fn lemma_decode_concat(a: Seq<u8>, b: Seq<u8>)
    requires
        valid_utf8(a),
        valid_utf8(b),
    ensures
        valid_utf8(a + b),
        decode_utf8(a + b) == decode_utf8(a) + decode_utf8(b),
    decreases a.len(),
{
    valid_utf8_concat(a, b);
    if a.len() == 0 {
        assert(a + b =~= b);
        assert(decode_utf8(a) + decode_utf8(b) =~= decode_utf8(b));
    } else {
        assert(valid_first_scalar(a + b));
        assert(length_of_first_scalar(a + b) == length_of_first_scalar(a));
        assert(pop_first_scalar(a + b) =~= pop_first_scalar(a) + b);
        assert(decode_first_scalar(a + b) == decode_first_scalar(a));
        lemma_decode_concat(pop_first_scalar(a), b);
        assert(decode_utf8(a + b) =~= decode_utf8(a) + decode_utf8(b));
    }
}

/// The longest well-formed prefix of `x + y` is the one of `x` followed by
/// the one of what `x` left over joined with `y`.
pub proof fn lemma_valid_prefix_in_two(x: Seq<u8>, y: Seq<u8>)
    ensures
        valid_prefix_len(x + y) == valid_prefix_len(x) + valid_prefix_len(undecoded_rest(x) + y),
    decreases x.len(),
{
    if x.len() > 0 && valid_first_scalar(x) {
        let k = length_of_first_scalar(x);
        let rest = pop_first_scalar(x);
        lemma_valid_prefix_is_valid(rest);
        assert(valid_first_scalar(x + y));
        assert(length_of_first_scalar(x + y) == k);
        assert(pop_first_scalar(x + y) =~= rest + y);
        lemma_valid_prefix_in_two(rest, y);
        assert(undecoded_rest(x) =~= undecoded_rest(rest));
    } else {
        assert(undecoded_rest(x) =~= x);
    }
}

/// Decoding a byte stream in two pieces gives the same text and leaves the
/// same bytes undecoded as decoding it in one.
pub proof fn lemma_decode_in_two(x: Seq<u8>, y: Seq<u8>)
    ensures
        decoded_prefix(x + y) == decoded_prefix(x) + decoded_prefix(undecoded_rest(x) + y),
        undecoded_rest(x + y) == undecoded_rest(undecoded_rest(x) + y),
{
    let n1 = valid_prefix_len(x);
    let mid = undecoded_rest(x) + y;
    let n2 = valid_prefix_len(mid);
    lemma_valid_prefix_in_two(x, y);
    lemma_valid_prefix_is_valid(x);
    lemma_valid_prefix_is_valid(mid);
    lemma_decode_concat(x.take(n1), mid.take(n2));
    assert((x + y).take(n1 + n2) =~= x.take(n1) + mid.take(n2));
    assert((x + y).skip(n1 + n2) =~= mid.skip(n2));
}

} // verus!
