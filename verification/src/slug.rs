//! The slug generator: lowercases, keeps ASCII letters and digits, and joins
//! the surviving runs with single hyphens, so the result is a safe identifier.
use vstd::prelude::*;

use crate::text::{is_slug_keep, is_slug_keep_exec, lower_char, lower_char_exec};

verus! {

/// One pass over the input: `acc` is the slug built so far, `pending` records
/// that a separator was seen since the last kept character.
pub open spec fn slug_rec(s: Seq<char>, acc: Seq<char>, pending: bool) -> Seq<char>
    decreases s.len(),
{
    if s.len() == 0 {
        acc
    } else {
        let c = s[0];
        if is_slug_keep(c) {
            let acc2 = if acc.len() > 0 && pending {
                acc.push('-').push(lower_char(c))
            } else {
                acc.push(lower_char(c))
            };
            slug_rec(s.drop_first(), acc2, false)
        } else {
            slug_rec(s.drop_first(), acc, true)
        }
    }
}

/// The slug of a text: lowercase alphanumeric runs joined by single hyphens,
/// with no leading, trailing or doubled hyphen.
pub open spec fn slug_of(s: Seq<char>) -> Seq<char> {
    slug_rec(s, Seq::empty(), false)
}

/// A lowercase ASCII letter or digit: the only characters besides `-` that a
/// slug may hold.
pub open spec fn is_slug_char(c: char) -> bool {
    ('a' <= c && c <= 'z') || ('0' <= c && c <= '9')
}

/// The shape `^[a-z0-9]+(-[a-z0-9]+)*$`, or empty: every character is a
/// lowercase alphanumeric or a hyphen, hyphens never lead, trail or double.
pub open spec fn is_slug(t: Seq<char>) -> bool {
    &&& forall|i: int| 0 <= i < t.len() ==> is_slug_char(#[trigger] t[i]) || t[i] == '-'
    &&& t.len() > 0 ==> t[0] != '-' && t[t.len() - 1] != '-'
    &&& forall|i: int| 0 <= i < t.len() - 1 ==> !(#[trigger] t[i] == '-' && t[i + 1] == '-')
}

/// Relies on `String::push`: appends the given character to the end of the
/// string.
#[verifier::external_body]
fn push_char(s: &mut String, c: char)
    ensures
        final(s)@ == old(s)@ + seq![c],
{
    s.push(c);
}

/// The slug of a character vector.
pub fn slugify_chars(v: &Vec<char>) -> (r: String)
    ensures
        r@ == slug_of(v@),
{
    let n = v.len();
    let mut out = String::new();
    let mut pending = false;
    let mut i: usize = 0;
    proof {
        assert(v@.skip(0) =~= v@);
    }
    while i < n
        invariant
            0 <= i <= n,
            n == v.len(),
            slug_of(v@) == slug_rec(v@.skip(i as int), out@, pending),
        decreases n - i,
    {
        let c = v[i];
        proof {
            assert(v@.skip(i as int)[0] == v@[i as int]);
            assert(v@.skip(i as int).drop_first() =~= v@.skip(i + 1 as int));
        }
        if is_slug_keep_exec(c) {
            let ghost pre = out@;
            if out.unicode_len() > 0 && pending {
                push_char(&mut out, '-');
                push_char(&mut out, lower_char_exec(c));
                proof {
                    assert(out@ =~= pre.push('-').push(lower_char(c)));
                }
            } else {
                push_char(&mut out, lower_char_exec(c));
                proof {
                    assert(out@ =~= pre.push(lower_char(c)));
                }
            }
            pending = false;
        } else {
            pending = true;
        }
        i = i + 1;
    }
    proof {
        assert(v@.skip(n as int) =~= Seq::<char>::empty());
    }
    out
}

/// The slug of a text, as the original free text was given.
pub fn slugify(text: &str) -> (r: String)
    ensures
        r@ == slug_of(text@),
{
    let v = crate::text::chars_of(text);
    slugify_chars(&v)
}

proof fn lemma_slug_rec_shape(s: Seq<char>, acc: Seq<char>, pending: bool)
    requires
        is_slug(acc),
    ensures
        is_slug(slug_rec(s, acc, pending)),
        slug_rec(s, acc, pending).len() >= acc.len(),
        (exists|i: int| 0 <= i < s.len() && is_slug_keep(#[trigger] s[i])) ==> slug_rec(
            s,
            acc,
            pending,
        ).len() > acc.len(),
        (forall|i: int| 0 <= i < s.len() ==> !is_slug_keep(#[trigger] s[i])) ==> slug_rec(
            s,
            acc,
            pending,
        ) == acc,
    decreases s.len(),
{
    if s.len() > 0 {
        let c = s[0];
        if is_slug_keep(c) {
            let lc = lower_char(c);
            assert(is_slug_char(lc));
            let acc2 = if acc.len() > 0 && pending {
                acc.push('-').push(lc)
            } else {
                acc.push(lc)
            };
            assert(is_slug(acc2)) by {
                if acc.len() > 0 && pending {
                    assert(forall|j: int|
                        0 <= j < acc.len() ==> #[trigger] acc2[j] == acc[j]);
                    assert(acc2[acc.len() as int] == '-');
                    assert(acc2[acc.len() as int + 1] == lc);
                } else {
                    assert(forall|j: int|
                        0 <= j < acc.len() ==> #[trigger] acc2[j] == acc[j]);
                    assert(acc2[acc.len() as int] == lc);
                }
            }
            lemma_slug_rec_shape(s.drop_first(), acc2, false);
            assert(forall|i: int|
                0 <= i < s.drop_first().len() ==> #[trigger] s.drop_first()[i] == s[i + 1]);
        } else {
            lemma_slug_rec_shape(s.drop_first(), acc, true);
            assert(forall|i: int|
                0 <= i < s.drop_first().len() ==> #[trigger] s.drop_first()[i] == s[i + 1]);
            if exists|i: int| 0 <= i < s.len() && is_slug_keep(#[trigger] s[i]) {
                let w = choose|i: int| 0 <= i < s.len() && is_slug_keep(#[trigger] s[i]);
                assert(w != 0);
                assert(is_slug_keep(s.drop_first()[w - 1]));
            }
        }
    }
}

/// The slug generator's output always matches `^[a-z0-9]+(-[a-z0-9]+)*$` or is
/// empty, and it is empty exactly when the input has no ASCII alphanumeric.
pub proof fn lemma_slug_shape(s: Seq<char>)
    ensures
        is_slug(slug_of(s)),
        slug_of(s).len() == 0 <==> (forall|i: int|
            0 <= i < s.len() ==> !is_slug_keep(#[trigger] s[i])),
{
    lemma_slug_rec_shape(s, Seq::empty(), false);
}

proof fn lemma_slug_rec_id(t: Seq<char>, acc: Seq<char>, pending: bool)
    requires
        forall|i: int| 0 <= i < t.len() ==> is_slug_char(#[trigger] t[i]) || t[i] == '-',
        forall|i: int|
            0 <= i < t.len() && #[trigger] t[i] == '-' ==> i + 1 < t.len() && is_slug_char(
                t[i + 1],
            ),
        t.len() > 0 && t[0] == '-' ==> acc.len() > 0,
        pending ==> acc.len() > 0 && t.len() > 0 && is_slug_char(t[0]),
    ensures
        slug_rec(t, acc, pending) == acc + (if pending {
            seq!['-']
        } else {
            Seq::<char>::empty()
        }) + t,
    decreases t.len(),
{
    if t.len() == 0 {
        assert(slug_rec(t, acc, pending) == acc);
        assert(acc + Seq::<char>::empty() + t =~= acc);
    } else {
        let c = t[0];
        let rest = t.drop_first();
        assert(forall|i: int| 0 <= i < rest.len() ==> #[trigger] rest[i] == t[i + 1]);
        if pending {
            assert(is_slug_char(c));
            assert(is_slug_keep(c) && lower_char(c) == c);
            let acc2 = acc.push('-').push(c);
            lemma_slug_rec_id(rest, acc2, false);
            assert(acc2 + Seq::<char>::empty() + rest =~= acc + seq!['-'] + t);
        } else if c == '-' {
            assert(!is_slug_keep('-'));
            assert(acc.len() > 0);
            assert(is_slug_char(t[1]));
            lemma_slug_rec_id(rest, acc, true);
            assert(acc + seq!['-'] + rest =~= acc + Seq::<char>::empty() + t);
        } else {
            assert(is_slug_char(c));
            assert(is_slug_keep(c) && lower_char(c) == c);
            let acc2 = acc.push(c);
            lemma_slug_rec_id(rest, acc2, false);
            assert(acc2 + Seq::<char>::empty() + rest =~= acc + Seq::<char>::empty() + t);
        }
    }
}

/// A text already in slug shape is left unchanged by the slug generator.
pub proof fn lemma_slug_fixed_point(t: Seq<char>)
    requires
        is_slug(t),
    ensures
        slug_of(t) == t,
{
    assert forall|i: int| 0 <= i < t.len() && #[trigger] t[i] == '-' implies i + 1 < t.len()
        && is_slug_char(t[i + 1]) by {
        assert(t[t.len() - 1] != '-');
        assert(!(t[i] == '-' && t[i + 1] == '-'));
    }
    lemma_slug_rec_id(t, Seq::empty(), false);
    assert(Seq::<char>::empty() + Seq::<char>::empty() + t =~= t);
}

/// The slug generator is idempotent: slugging a slug changes nothing.
pub proof fn lemma_slug_idempotent(s: Seq<char>)
    ensures
        slug_of(slug_of(s)) == slug_of(s),
{
    lemma_slug_shape(s);
    lemma_slug_fixed_point(slug_of(s));
}

} // verus!
