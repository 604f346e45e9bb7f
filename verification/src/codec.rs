//! The annotation codec: stripping trailing annotation glyphs from a tab
//! label, and appending a glyph to a clean label.
//!
//! A label is annotated by appending one space and one glyph from a fixed,
//! closed alphabet. `strip` removes trailing whitespace and trailing glyphs
//! to a fixpoint; `annotate` appends a glyph. Stripping before annotating
//! replaces an old glyph instead of stacking a new one on top of it.

use vstd::prelude::*;

verus! {

/// The characters that count as whitespace when trimming the end of a label
/// (the Unicode `White_Space` set, which is what `str::trim_end` removes).
pub open spec fn is_space_char(c: char) -> bool {
    ||| c == '\u{0009}'
    ||| c == '\u{000A}'
    ||| c == '\u{000B}'
    ||| c == '\u{000C}'
    ||| c == '\u{000D}'
    ||| c == ' '
    ||| c == '\u{0085}'
    ||| c == '\u{00A0}'
    ||| c == '\u{1680}'
    ||| c == '\u{2000}'
    ||| c == '\u{2001}'
    ||| c == '\u{2002}'
    ||| c == '\u{2003}'
    ||| c == '\u{2004}'
    ||| c == '\u{2005}'
    ||| c == '\u{2006}'
    ||| c == '\u{2007}'
    ||| c == '\u{2008}'
    ||| c == '\u{2009}'
    ||| c == '\u{200A}'
    ||| c == '\u{2028}'
    ||| c == '\u{2029}'
    ||| c == '\u{202F}'
    ||| c == '\u{205F}'
    ||| c == '\u{3000}'
}

/// The single-character glyphs of the annotation alphabet: the red circle,
/// check mark, cross mark, high-voltage, briefcase, party popper and
/// question mark glyphs.
pub open spec fn is_mark_char(c: char) -> bool {
    ||| c == '\u{1F534}'
    ||| c == '\u{2705}'
    ||| c == '\u{274C}'
    ||| c == '\u{26A1}'
    ||| c == '\u{1F4BC}'
    ||| c == '\u{1F389}'
    ||| c == '\u{2753}'
}

/// The one two-character glyph of the alphabet: the warning sign followed by
/// the emoji variation selector.
pub open spec fn warn_glyph() -> Seq<char> {
    seq!['\u{26A0}', '\u{FE0F}']
}

/// The glyph alphabet: seven single-character glyphs and the warning pair.
pub open spec fn is_glyph(g: Seq<char>) -> bool {
    ||| (g.len() == 1 && is_mark_char(g[0]))
    ||| g == warn_glyph()
}

/// How many trailing characters of `s` form a glyph of the alphabet:
/// 1 for a single-character glyph, 2 for the warning pair, 0 otherwise.
/// At most one case can apply, because no single-character glyph equals the
/// variation selector that ends the warning pair.
pub open spec fn glyph_suffix_len(s: Seq<char>) -> nat {
    if s.len() >= 1 && is_mark_char(s.last()) {
        1
    } else if s.len() >= 2 && s[s.len() - 2] == '\u{26A0}' && s.last() == '\u{FE0F}' {
        2
    } else {
        0
    }
}

/// A label is clean when it ends in neither whitespace nor a glyph;
/// on such a label `strip` has nothing to do.
pub open spec fn is_clean(s: Seq<char>) -> bool {
    &&& s.len() > 0 ==> !is_space_char(s.last())
    &&& glyph_suffix_len(s) == 0
}

/// What `strip` returns: trailing whitespace and trailing glyphs are removed
/// until the label is clean.
pub open spec fn strip_spec(s: Seq<char>) -> Seq<char>
    decreases s.len(),
{
    if s.len() > 0 && is_space_char(s.last()) {
        strip_spec(s.drop_last())
    } else if glyph_suffix_len(s) > 0 {
        strip_spec(s.take(s.len() - glyph_suffix_len(s)))
    } else {
        s
    }
}

/// What `annotate` returns: the base label, one space, and the glyph.
pub open spec fn annotate_spec(base: Seq<char>, glyph: Seq<char>) -> Seq<char> {
    base + seq![' '] + glyph
}

/// Stripping always ends on a clean label.
pub proof fn lemma_strip_clean(s: Seq<char>)
    ensures
        is_clean(strip_spec(s)),
    decreases s.len(),
{
    if s.len() > 0 && is_space_char(s.last()) {
        lemma_strip_clean(s.drop_last());
    } else if glyph_suffix_len(s) > 0 {
        lemma_strip_clean(s.take(s.len() - glyph_suffix_len(s)));
    }
}

/// On a clean label, stripping changes nothing.
pub proof fn lemma_strip_clean_fixed(s: Seq<char>)
    requires
        is_clean(s),
    ensures
        strip_spec(s) == s,
{
}

/// Stripping is idempotent: a second strip of an already stripped label
/// returns it unchanged.
pub proof fn lemma_strip_idempotent(s: Seq<char>)
    ensures
        strip_spec(strip_spec(s)) == strip_spec(s),
{
    lemma_strip_clean(s);
    lemma_strip_clean_fixed(strip_spec(s));
}

/// Stripping never lengthens a label.
pub proof fn lemma_strip_shrinks(s: Seq<char>)
    ensures
        strip_spec(s).len() <= s.len(),
    decreases s.len(),
{
    if s.len() > 0 && is_space_char(s.last()) {
        lemma_strip_shrinks(s.drop_last());
    } else if glyph_suffix_len(s) > 0 {
        lemma_strip_shrinks(s.take(s.len() - glyph_suffix_len(s)));
    }
}

/// Round trip: annotating a clean base label with any glyph of the alphabet
/// and stripping the result gives the base label back.
pub proof fn lemma_round_trip(base: Seq<char>, g: Seq<char>)
    requires
        is_clean(base),
        is_glyph(g),
    ensures
        strip_spec(annotate_spec(base, g)) == base,
{
    let t = annotate_spec(base, g);
    let sp = base + seq![' '];
    if g.len() == 1 && is_mark_char(g[0]) {
        assert(t.last() == g[0]);
        assert(glyph_suffix_len(t) == 1);
        assert(t.take(t.len() - 1) =~= sp);
        assert(strip_spec(t) == strip_spec(sp));
    } else {
        assert(t.last() == '\u{FE0F}');
        assert(t[t.len() - 2] == '\u{26A0}');
        assert(glyph_suffix_len(t) == 2);
        assert(t.take(t.len() - 2) =~= sp);
        assert(strip_spec(t) == strip_spec(sp));
    }
    assert(sp.last() == ' ');
    assert(sp.drop_last() =~= base);
    assert(strip_spec(sp) == strip_spec(base));
    lemma_strip_clean_fixed(base);
}

/// Re-annotation replaces rather than stacks: annotating a clean base label,
/// stripping, and annotating again is the same as annotating the base label
/// with the second glyph directly. The second glyph need not belong to the
/// alphabet, since it is only appended.
pub proof fn lemma_reannotate(base: Seq<char>, g1: Seq<char>, g2: Seq<char>)
    requires
        is_clean(base),
        is_glyph(g1),
    ensures
        annotate_spec(strip_spec(annotate_spec(base, g1)), g2) == annotate_spec(base, g2),
{
    lemma_round_trip(base, g1);
}

/// Whether `c` counts as whitespace for trimming.
fn is_space(c: char) -> (r: bool)
    ensures
        r == is_space_char(c),
{
    c == '\u{0009}' || c == '\u{000A}' || c == '\u{000B}' || c == '\u{000C}' || c == '\u{000D}'
        || c == ' ' || c == '\u{0085}' || c == '\u{00A0}' || c == '\u{1680}' || c == '\u{2000}'
        || c == '\u{2001}' || c == '\u{2002}' || c == '\u{2003}' || c == '\u{2004}'
        || c == '\u{2005}' || c == '\u{2006}' || c == '\u{2007}' || c == '\u{2008}'
        || c == '\u{2009}' || c == '\u{200A}' || c == '\u{2028}' || c == '\u{2029}'
        || c == '\u{202F}' || c == '\u{205F}' || c == '\u{3000}'
}

/// Whether `c` is a single-character glyph of the alphabet.
fn is_mark(c: char) -> (r: bool)
    ensures
        r == is_mark_char(c),
{
    c == '\u{1F534}' || c == '\u{2705}' || c == '\u{274C}' || c == '\u{26A1}'
        || c == '\u{1F4BC}' || c == '\u{1F389}' || c == '\u{2753}'
}

/// Remove trailing whitespace and trailing annotation glyphs from a label,
/// to a fixpoint. Total: never fails, and a clean label comes back unchanged.
pub fn strip(label: &str) -> (r: String)
    ensures
        r@ == strip_spec(label@),
{
    let len = label.unicode_len();
    let mut n: usize = len;
    proof {
        assert(label@.take(len as int) =~= label@);
    }
    loop
        invariant_except_break
            n <= label@.len(),
            label@.len() == len,
            strip_spec(label@) == strip_spec(label@.take(n as int)),
        ensures
            n <= label@.len(),
            strip_spec(label@) == label@.take(n as int),
        decreases n,
    {
        if n == 0 {
            proof {
                assert(label@.take(0) =~= Seq::<char>::empty());
            }
            break;
        }
        let c = label.get_char(n - 1);
        assert(label@.take(n as int).last() == c);
        if is_space(c) {
            proof {
                assert(label@.take(n as int).drop_last() =~= label@.take(n - 1));
            }
            n = n - 1;
        } else if is_mark(c) {
            proof {
                assert(glyph_suffix_len(label@.take(n as int)) == 1);
                assert(label@.take(n as int).take(n - 1) =~= label@.take(n - 1));
            }
            n = n - 1;
        } else if n >= 2 && c == '\u{FE0F}' && label.get_char(n - 2) == '\u{26A0}' {
            proof {
                assert(label@.take(n as int)[n - 2] == '\u{26A0}');
                assert(glyph_suffix_len(label@.take(n as int)) == 2);
                assert(label@.take(n as int).take(n - 2) =~= label@.take(n - 2));
            }
            n = n - 2;
        } else {
            proof {
                assert(is_clean(label@.take(n as int)));
            }
            break;
        }
    }
    let stripped = label.substring_char(0, n);
    String::from_str(stripped)
}

/// Append a glyph to a base label, separated by one space.
pub fn annotate(base: &str, glyph: &str) -> (r: String)
    ensures
        r@ == annotate_spec(base@, glyph@),
{
    let mut r = String::from_str(base);
    r.append(" ");
    r.append(glyph);
    proof {
        reveal_strlit(" ");
        assert(r@ =~= base@ + seq![' '] + glyph@);
    }
    r
}

} // verus!
