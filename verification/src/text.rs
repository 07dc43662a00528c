//! Character-level specifications and executable helpers shared by the slug
//! generator and the filename deriver: whitespace classification, first-line
//! extraction, heading-marker stripping, and trimming.
use vstd::prelude::*;

verus! {

/// True for the ASCII letters and digits, the only characters a slug keeps.
pub open spec fn is_slug_keep(c: char) -> bool {
    ('a' <= c && c <= 'z') || ('A' <= c && c <= 'Z') || ('0' <= c && c <= '9')
}

/// ASCII lowercasing of a single character.
pub open spec fn lower_char(c: char) -> char {
    if 'A' <= c && c <= 'Z' {
        (((c as u8) + 32) as char)
    } else {
        c
    }
}

/// The characters with the Unicode `White_Space` property, the set that
/// trimming removes.
pub open spec fn is_space_char(c: char) -> bool {
    ||| c == '\u{0009}'
    ||| c == '\u{000A}'
    ||| c == '\u{000B}'
    ||| c == '\u{000C}'
    ||| c == '\u{000D}'
    ||| c == ' '
    ||| c == '\u{0085}'
    ||| c == '\u{00A0}'
    ||| c == '\u{1680}'
    ||| ('\u{2000}' <= c && c <= '\u{200A}')
    ||| c == '\u{2028}'
    ||| c == '\u{2029}'
    ||| c == '\u{202F}'
    ||| c == '\u{205F}'
    ||| c == '\u{3000}'
}

/// A string trims to something non-empty exactly when it holds a
/// non-whitespace character.
pub open spec fn has_non_space(s: Seq<char>) -> bool {
    exists|i: int| 0 <= i < s.len() && !is_space_char(#[trigger] s[i])
}

pub fn is_slug_keep_exec(c: char) -> (r: bool)
    ensures
        r == is_slug_keep(c),
{
    ('a' <= c && c <= 'z') || ('A' <= c && c <= 'Z') || ('0' <= c && c <= '9')
}

pub fn lower_char_exec(c: char) -> (r: char)
    ensures
        r == lower_char(c),
{
    if 'A' <= c && c <= 'Z' {
        ((c as u8) + 32) as char
    } else {
        c
    }
}

pub fn is_space_char_exec(c: char) -> (r: bool)
    ensures
        r == is_space_char(c),
{
    c == '\u{0009}' || c == '\u{000A}' || c == '\u{000B}' || c == '\u{000C}' || c == '\u{000D}'
        || c == ' ' || c == '\u{0085}' || c == '\u{00A0}' || c == '\u{1680}' || ('\u{2000}' <= c
        && c <= '\u{200A}') || c == '\u{2028}' || c == '\u{2029}' || c == '\u{202F}'
        || c == '\u{205F}' || c == '\u{3000}'
}

/// Number of characters before the first line feed, or the whole length when
/// there is none.
pub open spec fn line_len(s: Seq<char>) -> nat
    decreases s.len(),
{
    if s.len() == 0 {
        0
    } else if s[0] == '\n' {
        0
    } else {
        1 + line_len(s.drop_first())
    }
}

proof fn lemma_line_len_step(s: Seq<char>, i: int)
    requires
        0 <= i <= s.len(),
        forall|j: int| 0 <= j < i ==> #[trigger] s[j] != '\n',
    ensures
        i < s.len() && s[i] == '\n' ==> line_len(s) == i,
        i == s.len() ==> line_len(s) == i,
    decreases i,
{
    if i == 0 {
        if s.len() > 0 {
            assert(s[0] != '\n' ==> line_len(s) == 1 + line_len(s.drop_first()));
        }
    } else {
        assert(s[0] != '\n');
        lemma_line_len_step(s.drop_first(), i - 1);
        assert(line_len(s) == 1 + line_len(s.drop_first()));
        if i < s.len() && s[i] == '\n' {
            assert(s.drop_first()[i - 1] == '\n');
        }
    }
}

/// The first line of a text: the characters before the first line feed, with
/// one trailing carriage return removed when present.
pub open spec fn first_line(s: Seq<char>) -> Seq<char> {
    let raw = s.subrange(0, line_len(s) as int);
    if raw.len() > 0 && raw.last() == '\r' {
        raw.drop_last()
    } else {
        raw
    }
}

/// The same text with every `#` removed.
pub open spec fn strip_hashes(s: Seq<char>) -> Seq<char>
    decreases s.len(),
{
    if s.len() == 0 {
        Seq::empty()
    } else if s.last() == '#' {
        strip_hashes(s.drop_last())
    } else {
        strip_hashes(s.drop_last()).push(s.last())
    }
}

/// Leading whitespace removed.
pub open spec fn trim_start(s: Seq<char>) -> Seq<char>
    decreases s.len(),
{
    if s.len() > 0 && is_space_char(s[0]) {
        trim_start(s.drop_first())
    } else {
        s
    }
}

/// Trailing whitespace removed.
pub open spec fn trim_end(s: Seq<char>) -> Seq<char>
    decreases s.len(),
{
    if s.len() > 0 && is_space_char(s.last()) {
        trim_end(s.drop_last())
    } else {
        s
    }
}

/// Whitespace removed from both ends.
pub open spec fn trim(s: Seq<char>) -> Seq<char> {
    trim_end(trim_start(s))
}

proof fn lemma_trim_start_at(s: Seq<char>, a: int)
    requires
        0 <= a <= s.len(),
        forall|j: int| 0 <= j < a ==> is_space_char(#[trigger] s[j]),
        a < s.len() ==> !is_space_char(s[a]),
    ensures
        trim_start(s) =~= s.subrange(a, s.len() as int),
    decreases a,
{
    if a == 0 {
        if s.len() > 0 {
            assert(!is_space_char(s[0]));
        }
    } else {
        assert(is_space_char(s[0]));
        lemma_trim_start_at(s.drop_first(), a - 1);
        assert(trim_start(s) == trim_start(s.drop_first()));
        assert(s.drop_first().subrange(a - 1, s.drop_first().len() as int) =~= s.subrange(
            a,
            s.len() as int,
        ));
    }
}

proof fn lemma_trim_end_at(s: Seq<char>, b: int)
    requires
        0 <= b <= s.len(),
        forall|j: int| b <= j < s.len() ==> is_space_char(#[trigger] s[j]),
        b > 0 ==> !is_space_char(s[b - 1]),
    ensures
        trim_end(s) =~= s.subrange(0, b),
    decreases s.len() - b,
{
    if b == s.len() {
        if s.len() > 0 {
            assert(!is_space_char(s.last()));
        }
    } else {
        assert(is_space_char(s.last()));
        lemma_trim_end_at(s.drop_last(), b);
        assert(trim_end(s) == trim_end(s.drop_last()));
        assert(s.drop_last().subrange(0, b) =~= s.subrange(0, b));
    }
}

proof fn lemma_trim_start_nonspace(s: Seq<char>)
    ensures
        trim_start(s).len() > 0 <==> has_non_space(s),
        has_non_space(trim_start(s)) <==> has_non_space(s),
    decreases s.len(),
{
    if s.len() > 0 && is_space_char(s[0]) {
        let rest = s.drop_first();
        lemma_trim_start_nonspace(rest);
        assert(forall|i: int| 0 <= i < rest.len() ==> #[trigger] rest[i] == s[i + 1]);
        if has_non_space(s) {
            let w = choose|i: int| 0 <= i < s.len() && !is_space_char(#[trigger] s[i]);
            assert(w != 0);
            assert(!is_space_char(rest[w - 1]));
        }
        if has_non_space(rest) {
            let w = choose|i: int| 0 <= i < rest.len() && !is_space_char(#[trigger] rest[i]);
            assert(!is_space_char(s[w + 1]));
        }
    } else {
        if s.len() > 0 {
            assert(!is_space_char(s[0]));
        }
    }
}

proof fn lemma_trim_end_nonspace(s: Seq<char>)
    ensures
        trim_end(s).len() > 0 <==> has_non_space(s),
    decreases s.len(),
{
    if s.len() > 0 && is_space_char(s.last()) {
        let rest = s.drop_last();
        lemma_trim_end_nonspace(rest);
        assert(forall|i: int| 0 <= i < rest.len() ==> #[trigger] rest[i] == s[i]);
        if has_non_space(s) {
            let w = choose|i: int| 0 <= i < s.len() && !is_space_char(#[trigger] s[i]);
            assert(w != s.len() - 1);
            assert(!is_space_char(rest[w]));
        }
        if has_non_space(rest) {
            let w = choose|i: int| 0 <= i < rest.len() && !is_space_char(#[trigger] rest[i]);
            assert(!is_space_char(s[w]));
        }
    } else {
        if s.len() > 0 {
            assert(!is_space_char(s.last()));
        }
    }
}

/// A text trims to something non-empty exactly when it holds a non-whitespace
/// character: the deriver's "trimmed title is non-empty" test, stated over
/// `trim` itself.
pub proof fn lemma_trim_nonempty(s: Seq<char>)
    ensures
        trim(s).len() > 0 <==> has_non_space(s),
{
    lemma_trim_start_nonspace(s);
    lemma_trim_end_nonspace(trim_start(s));
}

/// Both-ends trimming of a character vector, executed as an index scan.
pub fn trim_chars(v: &Vec<char>) -> (r: Vec<char>)
    ensures
        r@ =~= trim(v@),
{
    let n = v.len();
    let mut a: usize = 0;
    while a < n && is_space_char_exec(v[a])
        invariant
            0 <= a <= n,
            n == v.len(),
            forall|j: int| 0 <= j < a ==> is_space_char(#[trigger] v@[j]),
        decreases n - a,
    {
        a = a + 1;
    }
    proof {
        lemma_trim_start_at(v@, a as int);
    }
    let ghost started: Seq<char> = trim_start(v@);
    let mut b: usize = n;
    while b > a && is_space_char_exec(v[b - 1])
        invariant
            a <= b <= n,
            n == v.len(),
            forall|j: int| b <= j < n ==> is_space_char(#[trigger] v@[j]),
        decreases b,
    {
        b = b - 1;
    }
    proof {
        assert(started =~= v@.subrange(a as int, n as int));
        lemma_trim_end_at(started, b - a);
        assert(trim_end(started) =~= started.subrange(0, b - a));
    }
    let mut out: Vec<char> = Vec::new();
    let mut i: usize = a;
    while i < b
        invariant
            a <= i <= b <= n,
            n == v.len(),
            out@ =~= v@.subrange(a as int, i as int),
        decreases b - i,
    {
        out.push(v[i]);
        i = i + 1;
        proof {
            assert(out@ =~= v@.subrange(a as int, i as int));
        }
    }
    proof {
        assert(v@.subrange(a as int, b as int) =~= started.subrange(0, b - a));
    }
    out
}

/// The characters of a string, gathered into a vector.
pub fn chars_of(s: &str) -> (r: Vec<char>)
    ensures
        r@ =~= s@,
{
    let n = s.unicode_len();
    let mut out: Vec<char> = Vec::new();
    let mut i: usize = 0;
    while i < n
        invariant
            0 <= i <= n,
            n == s@.len(),
            out@ =~= s@.subrange(0, i as int),
        decreases n - i,
    {
        out.push(s.get_char(i));
        i = i + 1;
        proof {
            assert(out@ =~= s@.subrange(0, i as int));
        }
    }
    out
}

/// Whether the string holds any non-whitespace character, which is exactly
/// when trimming it leaves something.
pub fn has_non_space_exec(s: &str) -> (r: bool)
    ensures
        r == has_non_space(s@),
{
    let n = s.unicode_len();
    let mut i: usize = 0;
    while i < n
        invariant
            0 <= i <= n,
            n == s@.len(),
            forall|j: int| 0 <= j < i ==> is_space_char(#[trigger] s@[j]),
        decreases n - i,
    {
        if !is_space_char_exec(s.get_char(i)) {
            assert(!is_space_char(s@[i as int]));
            return true;
        }
        i = i + 1;
    }
    false
}

/// The first line of `content`, heading markers removed, trimmed: the
/// candidate the filename deriver considers when the title is blank.
pub fn first_line_candidate(content: &str) -> (r: Vec<char>)
    ensures
        r@ =~= trim(strip_hashes(first_line(content@))),
{
    let n = content.unicode_len();
    let mut i: usize = 0;
    let mut raw: Vec<char> = Vec::new();
    while i < n && content.get_char(i) != '\n'
        invariant
            0 <= i <= n,
            n == content@.len(),
            forall|j: int| 0 <= j < i ==> #[trigger] content@[j] != '\n',
            raw@ =~= content@.subrange(0, i as int),
        decreases n - i,
    {
        raw.push(content.get_char(i));
        i = i + 1;
        proof {
            assert(raw@ =~= content@.subrange(0, i as int));
        }
    }
    proof {
        lemma_line_len_step(content@, i as int);
        assert(raw@ =~= content@.subrange(0, line_len(content@) as int));
    }
    if raw.len() > 0 && raw[raw.len() - 1] == '\r' {
        raw.pop();
        proof {
            assert(raw@ =~= first_line(content@));
        }
    }
    let ghost line: Seq<char> = first_line(content@);
    let mut stripped: Vec<char> = Vec::new();
    let mut k: usize = 0;
    while k < raw.len()
        invariant
            0 <= k <= raw.len(),
            raw@ =~= line,
            stripped@ =~= strip_hashes(line.subrange(0, k as int)),
        decreases raw.len() - k,
    {
        let c = raw[k];
        proof {
            assert(line.subrange(0, k + 1 as int).drop_last() =~= line.subrange(0, k as int));
            assert(line.subrange(0, k + 1 as int).last() == line[k as int]);
        }
        if c != '#' {
            stripped.push(c);
        }
        k = k + 1;
    }
    proof {
        assert(line.subrange(0, line.len() as int) =~= line);
    }
    trim_chars(&stripped)
}

} // verus!
