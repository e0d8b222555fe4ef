//! Finding the toolchain's version in what `emcc --version` prints.
//!
//! A version line is the literal `VERSION_PREFIX`, then a version number made
//! of three runs of decimal digits split by two dots, then a space and a build
//! tag of word characters in parentheses; both classes are Unicode's (see
//! `char_class`). The first such line in the text is the one that counts, and
//! semver then reads its number.
use vstd::prelude::*;
use vstd::utf8::{decode_utf8, valid_utf8};

use crate::char_class::{decimal_digit, is_decimal_digit, is_word_char, lemma_class_facts, word_char};
use crate::error::{ProcessOutput, VersionError};

verus! {

/// What the toolchain prints right before its version number.
pub const VERSION_PREFIX: &'static str =
    "emcc (Emscripten gcc/clang-like replacement + linker emulating GNU ld) ";

pub open spec fn is_ascii_digit(c: char) -> bool {
    '0' <= c && c <= '9'
}

pub open spec fn all_digits(s: Seq<char>) -> bool {
    forall|x: int| 0 <= x < s.len() ==> is_decimal_digit(#[trigger] s[x])
}

pub open spec fn all_tag_chars(s: Seq<char>) -> bool {
    forall|x: int| 0 <= x < s.len() ==> is_word_char(#[trigger] s[x])
}

/// `g` is three runs of decimal digits, possibly empty, split by dots at `a` and `b`.
pub open spec fn dotted_digits(g: Seq<char>, a: int, b: int) -> bool {
    &&& 0 <= a < b < g.len()
    &&& g[a] == '.' && g[b] == '.'
    &&& all_digits(g.subrange(0, a))
    &&& all_digits(g.subrange(a + 1, b))
    &&& all_digits(g.subrange(b + 1, g.len() as int))
}

/// A version line starts at `i` in `t`: its version number is
/// `t[i + |prefix| .. e]`, with dots at `a` and `b` counted from the number's
/// start, and its build tag closes at `j`.
pub open spec fn version_line(t: Seq<char>, i: int, a: int, b: int, e: int, j: int) -> bool {
    let g = i + VERSION_PREFIX@.len();
    &&& 0 <= i && g <= e && e + 2 <= j < t.len()
    &&& t.subrange(i, g) == VERSION_PREFIX@
    &&& dotted_digits(t.subrange(g, e), a, b)
    &&& t[e] == ' ' && t[e + 1] == '('
    &&& all_tag_chars(t.subrange(e + 2, j))
    &&& t[j] == ')'
}

/// A version line starts at `i` in `t`, its number ends at `e`, and its dots
/// lie at `a` and `b`, counted from the number's start.
pub open spec fn number_at(t: Seq<char>, i: int, a: int, b: int, e: int) -> bool {
    exists|j: int| #[trigger] version_line(t, i, a, b, e, j)
}

pub open spec fn line_at(t: Seq<char>, i: int) -> bool {
    exists|a: int, b: int, e: int, j: int| version_line(t, i, a, b, e, j)
}

/// The numeric value of an ASCII digit.
pub open spec fn digit_value(c: char) -> int {
    (c as u32) as int - ('0' as u32) as int
}

/// The number that a run of decimal digits denotes.
pub open spec fn decimal(d: Seq<char>) -> int
    decreases d.len(),
{
    if d.len() == 0 {
        0
    } else {
        decimal(d.drop_last()) * 10 + digit_value(d.last())
    }
}

/// A run of decimal digits that semver accepts as a version component: not
/// empty, ASCII digits only, no leading zero, and a value that fits in a `u64`.
pub open spec fn valid_component(d: Seq<char>) -> bool {
    &&& d.len() > 0
    &&& forall|x: int| 0 <= x < d.len() ==> is_ascii_digit(#[trigger] d[x])
    &&& d.len() > 1 ==> d[0] != '0'
    &&& decimal(d) <= u64::MAX
}

/// The dotted digits `g`, with dots at `a` and `b`, form a well-formed version.
pub open spec fn well_formed_number(g: Seq<char>, a: int, b: int) -> bool {
    &&& valid_component(g.subrange(0, a))
    &&& valid_component(g.subrange(a + 1, b))
    &&& valid_component(g.subrange(b + 1, g.len() as int))
}

/// The version that the dotted digits `g`, with dots at `a` and `b`, denote.
pub open spec fn number_value(g: Seq<char>, a: int, b: int) -> Version {
    Version {
        major: decimal(g.subrange(0, a)) as u64,
        minor: decimal(g.subrange(a + 1, b)) as u64,
        patch: decimal(g.subrange(b + 1, g.len() as int)) as u64,
    }
}

/// A version as major, minor and patch numbers.
#[derive(Clone, Copy, Debug, PartialEq, Eq, Structural)]
pub struct Version {
    pub major: u64,
    pub minor: u64,
    pub patch: u64,
}

/// The outcome that the version number `g` of the first version line, with
/// dots at `a` and `b`, gives.
pub open spec fn number_outcome(g: Seq<char>, a: int, b: int, r: Result<Version, VersionError>) -> bool {
    if well_formed_number(g, a, b) {
        r == Ok::<Version, VersionError>(number_value(g, a, b))
    } else {
        r matches Err(VersionError::MalformedVersion(s, _)) && s@ == g
    }
}

/// The outcome of reading a version from the text `t`: the first version
/// line decides it, and without one the text is handed back.
pub open spec fn text_outcome(t: Seq<char>, r: Result<Version, VersionError>) -> bool {
    if forall|i: int| !line_at(t, i) {
        r matches Err(VersionError::PatternNotMatched(s)) && s@ == t
    } else {
        exists|i: int, a: int, b: int, e: int|
            {
                &&& #[trigger] number_at(t, i, a, b, e)
                &&& forall|k: int| 0 <= k < i ==> !line_at(t, k)
                &&& number_outcome(t.subrange(i + VERSION_PREFIX@.len(), e), a, b, r)
            }
    }
}

/// A run that ends at the first character outside it ends only there.
proof fn lemma_run_end_unique(
    t: Seq<char>,
    lo: int,
    k1: int,
    k2: int,
    p: spec_fn(char) -> bool,
)
    requires
        0 <= lo <= k1 <= t.len(),
        lo <= k2 < t.len(),
        forall|x: int| lo <= x < k1 ==> p(#[trigger] t[x]),
        k1 == t.len() || !p(t[k1]),
        forall|x: int| lo <= x < k2 ==> p(#[trigger] t[x]),
        !p(t[k2]),
    ensures
        k1 == k2,
{
    if k1 < k2 {
        assert(p(t[k1]));
    } else if k2 < k1 {
        assert(p(t[k2]));
    }
}

/// `version_line` in positions of `t`: the dots at `da` and `db`.
spec fn line_positions(t: Seq<char>, i: int, da: int, db: int, e: int, j: int) -> bool {
    let g = i + VERSION_PREFIX@.len();
    &&& 0 <= i && g <= da && da < db && db < e && e + 2 <= j && j < t.len()
    &&& forall|x: int| 0 <= x < VERSION_PREFIX@.len() ==> #[trigger] t[i + x] == VERSION_PREFIX@[x]
    &&& forall|x: int| g <= x < da ==> is_decimal_digit(#[trigger] t[x])
    &&& t[da] == '.'
    &&& forall|x: int| da < x < db ==> is_decimal_digit(#[trigger] t[x])
    &&& t[db] == '.'
    &&& forall|x: int| db < x < e ==> is_decimal_digit(#[trigger] t[x])
    &&& t[e] == ' ' && t[e + 1] == '('
    &&& forall|x: int| e + 2 <= x < j ==> is_word_char(#[trigger] t[x])
    &&& t[j] == ')'
}

proof fn lemma_line_positions(t: Seq<char>, i: int, a: int, b: int, e: int, j: int)
    ensures
        version_line(t, i, a, b, e, j) <==> line_positions(
            t,
            i,
            i + VERSION_PREFIX@.len() + a,
            i + VERSION_PREFIX@.len() + b,
            e,
            j,
        ),
{
    let p = VERSION_PREFIX@.len() as int;
    let g = i + p;
    if version_line(t, i, a, b, e, j) {
        let n = t.subrange(g, e);
        assert forall|x: int| 0 <= x < p implies #[trigger] t[i + x] == VERSION_PREFIX@[x] by {
            assert(t.subrange(i, g)[x] == t[i + x]);
        }
        assert forall|x: int| g <= x < g + a implies is_decimal_digit(#[trigger] t[x]) by {
            assert(n.subrange(0, a)[x - g] == t[x]);
        }
        assert forall|x: int| g + a < x < g + b implies is_decimal_digit(#[trigger] t[x]) by {
            assert(n.subrange(a + 1, b)[x - g - a - 1] == t[x]);
        }
        assert forall|x: int| g + b < x < e implies is_decimal_digit(#[trigger] t[x]) by {
            assert(n.subrange(b + 1, n.len() as int)[x - g - b - 1] == t[x]);
        }
        assert forall|x: int| e + 2 <= x < j implies is_word_char(#[trigger] t[x]) by {
            assert(t.subrange(e + 2, j)[x - e - 2] == t[x]);
        }
    }
    if line_positions(t, i, g + a, g + b, e, j) {
        let n = t.subrange(g, e);
        assert forall|x: int| 0 <= x < VERSION_PREFIX@.len() implies #[trigger] t.subrange(
            i,
            g,
        )[x] == VERSION_PREFIX@[x] by {
            assert(t[i + x] == VERSION_PREFIX@[x]);
        }
        assert(t.subrange(i, g) =~= VERSION_PREFIX@);
        assert(n[a] == t[g + a]);
        assert(n[b] == t[g + b]);
        assert forall|x: int| 0 <= x < a implies is_decimal_digit(#[trigger] n.subrange(0, a)[x]) by {
            assert(n.subrange(0, a)[x] == t[g + x]);
        }
        assert forall|x: int| 0 <= x < b - a - 1 implies is_decimal_digit(
            #[trigger] n.subrange(a + 1, b)[x],
        ) by {
            assert(n.subrange(a + 1, b)[x] == t[g + a + 1 + x]);
        }
        assert forall|x: int| 0 <= x < n.len() - b - 1 implies is_decimal_digit(
            #[trigger] n.subrange(b + 1, n.len() as int)[x],
        ) by {
            assert(n.subrange(b + 1, n.len() as int)[x] == t[g + b + 1 + x]);
        }
        assert forall|x: int| 0 <= x < j - e - 2 implies is_word_char(
            #[trigger] t.subrange(e + 2, j)[x],
        ) by {
            assert(t.subrange(e + 2, j)[x] == t[e + 2 + x]);
        }
    }
}

/// Two version lines that start at one place are the same line: the pattern
/// leaves no choice of where the number's dots, its end or the tag's end lie.
pub proof fn lemma_version_line_unique(
    t: Seq<char>,
    i: int,
    a1: int,
    b1: int,
    e1: int,
    j1: int,
    a2: int,
    b2: int,
    e2: int,
    j2: int,
)
    requires
        version_line(t, i, a1, b1, e1, j1),
        version_line(t, i, a2, b2, e2, j2),
    ensures
        a1 == a2 && b1 == b2 && e1 == e2 && j1 == j2,
{
    let g = i + VERSION_PREFIX@.len();
    lemma_class_facts();
    lemma_line_positions(t, i, a1, b1, e1, j1);
    lemma_line_positions(t, i, a2, b2, e2, j2);
    let dig = |c: char| is_decimal_digit(c);
    let tag = |c: char| is_word_char(c);
    lemma_run_end_unique(t, g, g + a1, g + a2, dig);
    lemma_run_end_unique(t, g + a1 + 1, g + b1, g + b2, dig);
    lemma_run_end_unique(t, g + b1 + 1, e1, e2, dig);
    lemma_run_end_unique(t, e1 + 2, j1, j2, tag);
}

/// The outcome of reading a version from a text is determined by the text:
/// where the text yields a version, it yields no other outcome.
pub proof fn lemma_text_outcome_determined(
    t: Seq<char>,
    v: Version,
    r: Result<Version, VersionError>,
)
    requires
        text_outcome(t, Ok(v)),
        text_outcome(t, r),
    ensures
        r == Ok::<Version, VersionError>(v),
{
    let p = VERSION_PREFIX@.len();
    let (i1, a1, b1, e1) = choose|i: int, a: int, b: int, e: int|
        {
            &&& #[trigger] number_at(t, i, a, b, e)
            &&& forall|k: int| 0 <= k < i ==> !line_at(t, k)
            &&& number_outcome(t.subrange(i + p, e), a, b, Ok(v))
        };
    let (i2, a2, b2, e2) = choose|i: int, a: int, b: int, e: int|
        {
            &&& #[trigger] number_at(t, i, a, b, e)
            &&& forall|k: int| 0 <= k < i ==> !line_at(t, k)
            &&& number_outcome(t.subrange(i + p, e), a, b, r)
        };
    let j1 = choose|j: int| version_line(t, i1, a1, b1, e1, j);
    let j2 = choose|j: int| version_line(t, i2, a2, b2, e2, j);
    assert(line_at(t, i1));
    assert(line_at(t, i2));
    assert(i1 == i2);
    lemma_version_line_unique(t, i1, a1, b1, e1, j1, a2, b2, e2, j2);
}

/// The characters of `s`, in order.
fn chars_of(s: &str) -> (r: Vec<char>)
    ensures
        r@ == s@,
{
    let n = s.unicode_len();
    let mut r: Vec<char> = Vec::new();
    let mut k: usize = 0;
    while k < n
        invariant
            n == s@.len(),
            k <= n,
            r@ == s@.subrange(0, k as int),
        decreases n - k,
    {
        r.push(s.get_char(k));
        k = k + 1;
        assert(r@ =~= s@.subrange(0, k as int));
    }
    assert(r@ =~= s@);
    r
}

/// The end of the run of digits that starts at `k`.
fn digits_end(t: &Vec<char>, k: usize) -> (r: usize)
    requires
        k <= t@.len(),
    ensures
        k <= r <= t@.len(),
        forall|x: int| k <= x < r ==> is_decimal_digit(#[trigger] t@[x]),
        r == t@.len() || !is_decimal_digit(t@[r as int]),
{
    let mut r = k;
    while r < t.len() && decimal_digit(t[r])
        invariant
            k <= r <= t@.len(),
            forall|x: int| k <= x < r ==> is_decimal_digit(#[trigger] t@[x]),
        decreases t@.len() - r,
    {
        r = r + 1;
    }
    r
}

/// The end of the run of word characters that starts at `k`.
fn tag_end(t: &Vec<char>, k: usize) -> (r: usize)
    requires
        k <= t@.len(),
    ensures
        k <= r <= t@.len(),
        forall|x: int| k <= x < r ==> is_word_char(#[trigger] t@[x]),
        r == t@.len() || !is_word_char(t@[r as int]),
{
    let mut r = k;
    while r < t.len() && word_char(t[r])
        invariant
            k <= r <= t@.len(),
            forall|x: int| k <= x < r ==> is_word_char(#[trigger] t@[x]),
        decreases t@.len() - r,
    {
        r = r + 1;
    }
    r
}

/// The positions of a version line that starts at `i`.
proof fn lemma_line_witness(t: Seq<char>, i: int) -> (w: (int, int, int, int))
    requires
        line_at(t, i),
    ensures
        version_line(t, i, w.0, w.1, w.2, w.3),
        line_positions(
            t,
            i,
            i + VERSION_PREFIX@.len() + w.0,
            i + VERSION_PREFIX@.len() + w.1,
            w.2,
            w.3,
        ),
{
    let (a, b, e, j) = choose|a: int, b: int, e: int, j: int| version_line(t, i, a, b, e, j);
    lemma_line_positions(t, i, a, b, e, j);
    (a, b, e, j)
}

/// The version line that starts at `i`, if one does: the dots of its number,
/// counted from the number's start, and the number's end.
fn match_line_at(t: &Vec<char>, prefix: &Vec<char>, i: usize) -> (r: Option<(usize, usize, usize)>)
    requires
        prefix@ == VERSION_PREFIX@,
        i <= t@.len(),
    ensures
        r matches Some((a, b, e)) ==> number_at(t@, i as int, a as int, b as int, e as int),
        r is None ==> !line_at(t@, i as int),
{
    let ghost tt = t@;
    let p = prefix.len();
    let ghost g = i + p;
    let ghost dig = |c: char| is_decimal_digit(c);
    let ghost tag = |c: char| is_word_char(c);
    // Where a line does start at `i`, `w` holds its positions: each scan below
    // either finds the same position or proves that there is no line.
    let ghost mut w: (int, int, int, int) = (0, 0, 0, 0);
    proof {
        lemma_class_facts();
        if line_at(tt, i as int) {
            w = lemma_line_witness(tt, i as int);
        }
    }
    let n = t.len();
    if p >= n - i {
        return None;
    }
    let mut k: usize = 0;
    while k < p
        invariant
            p == prefix@.len(),
            prefix@ == VERSION_PREFIX@,
            i + p < t@.len(),
            t@.len() <= usize::MAX,
            k <= p,
            forall|x: int| 0 <= x < k ==> t@[i + x] == #[trigger] prefix@[x],
        decreases p - k,
    {
        if t[i + k] != prefix[k] {
            assert(line_at(tt, i as int) ==> tt[i + k] == VERSION_PREFIX@[k as int]);
            return None;
        }
        k = k + 1;
    }
    let g = i + p;
    let da = digits_end(t, g);
    proof {
        if line_at(tt, i as int) {
            lemma_run_end_unique(tt, g as int, da as int, g + w.0, dig);
        }
    }
    if da >= t.len() || t[da] != '.' {
        return None;
    }
    let db = digits_end(t, da + 1);
    proof {
        if line_at(tt, i as int) {
            lemma_run_end_unique(tt, da + 1, db as int, g + w.1, dig);
        }
    }
    if db >= t.len() || t[db] != '.' {
        return None;
    }
    let e = digits_end(t, db + 1);
    proof {
        if line_at(tt, i as int) {
            lemma_run_end_unique(tt, db + 1, e as int, w.2, dig);
        }
    }
    if e >= t.len() || t.len() - e < 2 || t[e] != ' ' || t[e + 1] != '(' {
        return None;
    }
    let j = tag_end(t, e + 2);
    proof {
        if line_at(tt, i as int) {
            lemma_run_end_unique(tt, e + 2, j as int, w.3, tag);
        }
    }
    if j >= t.len() || t[j] != ')' {
        return None;
    }
    proof {
        assert forall|x: int| 0 <= x < VERSION_PREFIX@.len() implies #[trigger] tt[i + x]
            == VERSION_PREFIX@[x] by {
            assert(tt[i + x] == prefix@[x]);
        }
        let ra = (da - g) as int;
        let rb = (db - g) as int;
        lemma_line_positions(tt, i as int, ra, rb, e as int, j as int);
        assert(version_line(tt, i as int, ra, rb, e as int, j as int));
    }
    Some((da - g, db - g, e))
}

/// The first version line in `t`: where it starts, the dots of its number,
/// counted from the number's start, and the number's end.
fn first_line(t: &Vec<char>) -> (r: Option<(usize, usize, usize, usize)>)
    ensures
        r is None ==> forall|i: int| !line_at(t@, i),
        r matches Some((i, a, b, e)) ==> {
            &&& number_at(t@, i as int, a as int, b as int, e as int)
            &&& forall|k: int| 0 <= k < i ==> !line_at(t@, k)
        },
{
    let prefix = chars_of(VERSION_PREFIX);
    let mut i: usize = 0;
    while i < t.len()
        invariant
            prefix@ == VERSION_PREFIX@,
            i <= t@.len(),
            forall|k: int| 0 <= k < i ==> !line_at(t@, k),
        decreases t@.len() - i,
    {
        match match_line_at(t, &prefix, i) {
            Some((a, b, e)) => {
                return Some((i, a, b, e));
            },
            None => {},
        }
        i = i + 1;
    }
    assert forall|i: int| !line_at(t@, i) by {
        if line_at(t@, i) {
            let (a, b, e, j) = choose|a: int, b: int, e: int, j: int| version_line(t@, i, a, b, e, j);
        }
    }
    None
}

/// Relies on std::str::from_utf8: it accepts exactly the byte sequences that
/// are valid UTF-8, and then yields the characters they encode.
#[verifier::external_body]
fn utf8_text(bytes: &[u8]) -> (r: Option<&str>)
    ensures
        r is Some <==> valid_utf8(bytes@),
        r matches Some(s) ==> s@ == decode_utf8(bytes@),
{
    std::str::from_utf8(bytes).ok()
}

/// Relies on semver::Version::parse: on three runs of decimal digits split by
/// two dots it succeeds exactly when every run is a valid component (a
/// non-ASCII digit stops its number and is then refused), and the version it
/// yields has those three numbers and no pre-release or build part.
#[verifier::external_body]
fn parse_semver(text: &str) -> (r: Result<Version, semver::Error>)
    requires
        exists|a: int, b: int| dotted_digits(text@, a, b),
    ensures
        forall|a: int, b: int|
            #[trigger] dotted_digits(text@, a, b) ==> match r {
                Ok(v) => well_formed_number(text@, a, b) && v == number_value(text@, a, b),
                Err(_) => !well_formed_number(text@, a, b),
            },
{
    semver::Version::parse(text).map(|v| Version { major: v.major, minor: v.minor, patch: v.patch })
}

/// Reads the toolchain's version from the text it printed: the number in the
/// first version line, `PatternNotMatched` with the whole text where there is
/// none, and `MalformedVersion` with the number where semver refuses it.
pub fn version_from_text(text: &str) -> (r: Result<Version, VersionError>)
    ensures
        text_outcome(text@, r),
{
    let t = chars_of(text);
    match first_line(&t) {
        None => Err(VersionError::PatternNotMatched(text.to_owned())),
        Some((i, a, b, e)) => {
            let g = i + VERSION_PREFIX.unicode_len();
            let number = text.substring_char(g, e);
            proof {
                let j = choose|j: int| version_line(t@, i as int, a as int, b as int, e as int, j);
                assert(number@ == t@.subrange(g as int, e as int));
                assert(dotted_digits(number@, a as int, b as int));
            }
            let parsed = parse_semver(number);
            let r = match parsed {
                Ok(v) => Ok(v),
                Err(cause) => Err(VersionError::MalformedVersion(number.to_owned(), cause)),
            };
            proof {
                let j = choose|j: int| version_line(t@, i as int, a as int, b as int, e as int, j);
                assert(line_at(text@, i as int));
                assert(number_at(text@, i as int, a as int, b as int, e as int));
                assert(number_outcome(number@, a as int, b as int, r));
                assert(number@ == text@.subrange(i + VERSION_PREFIX@.len(), e as int));
            }
            r
        },
    }
}

/// Reads the toolchain's version from what `emcc --version` reported:
/// `InvocationFailed` with the whole report where it did not succeed,
/// `OutputNotText` with its standard output where that is not UTF-8, and
/// otherwise what `version_from_text` gives on that output.
pub fn version_from_output(output: ProcessOutput) -> (r: Result<Version, VersionError>)
    ensures
        !output.spec_success() ==> r == Err::<Version, VersionError>(
            VersionError::InvocationFailed(output),
        ),
        output.spec_success() && !valid_utf8(output.stdout@) ==> r == Err::<Version, VersionError>(
            VersionError::OutputNotText(output.stdout),
        ),
        output.spec_success() && valid_utf8(output.stdout@) ==> text_outcome(
            decode_utf8(output.stdout@),
            r,
        ),
{
    if !output.success() {
        return Err(VersionError::InvocationFailed(output));
    }
    match utf8_text(output.stdout.as_slice()) {
        Some(text) => version_from_text(text),
        None => Err(VersionError::OutputNotText(output.stdout)),
    }
}

} // verus!
