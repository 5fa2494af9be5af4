//! Best-effort HTML-to-plaintext conversion used for the text alternative of
//! outgoing messages.
//!
//! A single left-to-right scan discards every character between a `<` and the
//! next `>` (no balancing, no awareness of quoted attributes). A second single
//! pass substitutes exactly four entities: `&nbsp;` to a space, `&amp;` to
//! `&`, `&lt;` to `<` and `&gt;` to `>`. Each input position is substituted at
//! most once and replacement output is never re-scanned.

use vstd::prelude::*;

use crate::strutil::{chars_of, string_from_chars};

verus! {

/// Tag removal, one character at a time: `<` enters a tag, `>` leaves it,
/// characters outside tags pass through, characters inside are dropped.
pub open spec fn strip_tags_from(s: Seq<char>, in_tag: bool) -> Seq<char>
    decreases s.len(),
{
    if s.len() == 0 {
        Seq::empty()
    } else if s[0] == '<' {
        strip_tags_from(s.drop_first(), true)
    } else if s[0] == '>' {
        strip_tags_from(s.drop_first(), false)
    } else if in_tag {
        strip_tags_from(s.drop_first(), true)
    } else {
        seq![s[0]] + strip_tags_from(s.drop_first(), false)
    }
}

/// Tag removal starting outside any tag.
pub open spec fn strip_tags(s: Seq<char>) -> Seq<char> {
    strip_tags_from(s, false)
}

pub open spec fn nbsp_entity() -> Seq<char> {
    seq!['&', 'n', 'b', 's', 'p', ';']
}

pub open spec fn amp_entity() -> Seq<char> {
    seq!['&', 'a', 'm', 'p', ';']
}

pub open spec fn lt_entity() -> Seq<char> {
    seq!['&', 'l', 't', ';']
}

pub open spec fn gt_entity() -> Seq<char> {
    seq!['&', 'g', 't', ';']
}

pub open spec fn starts_with(s: Seq<char>, p: Seq<char>) -> bool {
    p.len() <= s.len() && s.subrange(0, p.len() as int) == p
}

/// One substitution pass. At each position the four entities are tried in
/// the fixed order `&nbsp;`, `&amp;`, `&lt;`, `&gt;`; on a match the
/// replacement character is emitted and the scan continues after the entity,
/// so replacement output is never itself substituted again.
pub open spec fn subst_entities(s: Seq<char>) -> Seq<char>
    decreases s.len(),
{
    if s.len() == 0 {
        Seq::empty()
    } else if starts_with(s, nbsp_entity()) {
        seq![' '] + subst_entities(s.skip(6))
    } else if starts_with(s, amp_entity()) {
        seq!['&'] + subst_entities(s.skip(5))
    } else if starts_with(s, lt_entity()) {
        seq!['<'] + subst_entities(s.skip(4))
    } else if starts_with(s, gt_entity()) {
        seq!['>'] + subst_entities(s.skip(4))
    } else {
        seq![s[0]] + subst_entities(s.drop_first())
    }
}

/// What `strip` returns: tag removal, then one entity-substitution pass.
pub open spec fn spec_strip(s: Seq<char>) -> Seq<char> {
    subst_entities(strip_tags(s))
}

/// Derives a plaintext rendition of `html`: markup between `<` and `>` is
/// discarded, then `&nbsp;`, `&amp;`, `&lt;` and `&gt;` are each replaced
/// once, in a single pass.
pub fn strip(html: &str) -> (r: String)
    ensures
        r@ == spec_strip(html@),
{
    let cs = chars_of(html);
    let tagless = remove_tags(&cs);
    let replaced = replace_entities(&tagless);
    string_from_chars(&replaced)
}

fn remove_tags(v: &Vec<char>) -> (out: Vec<char>)
    ensures
        out@ == strip_tags(v@),
{
    let mut out: Vec<char> = Vec::new();
    let mut in_tag: bool = false;
    let mut i: usize = 0;
    proof {
        assert(v@.skip(0) =~= v@);
        assert(out@ + strip_tags_from(v@, false) =~= strip_tags_from(v@, false));
    }
    while i < v.len()
        invariant
            i <= v@.len(),
            strip_tags(v@) == out@ + strip_tags_from(v@.skip(i as int), in_tag),
        decreases v@.len() - i,
    {
        let ghost rem = v@.skip(i as int);
        let ghost prev_out = out@;
        let ghost prev_tag = in_tag;
        let c = v[i];
        if c == '<' {
            in_tag = true;
        } else if c == '>' {
            in_tag = false;
        } else if !in_tag {
            out.push(c);
        }
        i = i + 1;
        proof {
            assert(rem[0] == c);
            assert(rem.drop_first() =~= v@.skip(i as int));
            if c != '<' && c != '>' && !prev_tag {
                assert(prev_out + (seq![c] + strip_tags_from(rem.drop_first(), false)) =~= out@
                    + strip_tags_from(rem.drop_first(), false));
            }
        }
    }
    proof {
        assert(v@.skip(i as int) =~= Seq::<char>::empty());
        assert(out@ + strip_tags_from(Seq::<char>::empty(), in_tag) =~= out@);
    }
    out
}

/// Whether the characters of `p` occur in `v` starting at position `i`.
fn starts_with_at(v: &Vec<char>, i: usize, p: &Vec<char>) -> (b: bool)
    requires
        i <= v@.len(),
    ensures
        b == starts_with(v@.skip(i as int), p@),
{
    let ghost rem = v@.skip(i as int);
    if v.len() - i < p.len() {
        proof {
            assert(!starts_with(rem, p@));
        }
        return false;
    }
    let mut j: usize = 0;
    while j < p.len()
        invariant
            j <= p@.len(),
            i + p@.len() <= v@.len() <= usize::MAX,
            rem == v@.skip(i as int),
            forall|k: int| 0 <= k < j ==> v@[i + k] == p@[k],
        decreases p@.len() - j,
    {
        if v[i + j] != p[j] {
            proof {
                assert(rem[j as int] == v@[i + j]);
                if starts_with(rem, p@) {
                    assert(rem.subrange(0, p@.len() as int)[j as int] == p@[j as int]);
                }
            }
            return false;
        }
        j = j + 1;
    }
    proof {
        assert(rem.subrange(0, p@.len() as int) =~= p@) by {
            assert(forall|k: int|
                0 <= k < p@.len() ==> rem.subrange(0, p@.len() as int)[k] == v@[i + k]);
        }
    }
    true
}

fn nbsp_pattern() -> (p: Vec<char>)
    ensures
        p@ == nbsp_entity(),
{
    let mut p: Vec<char> = Vec::new();
    p.push('&');
    p.push('n');
    p.push('b');
    p.push('s');
    p.push('p');
    p.push(';');
    proof {
        assert(p@ =~= nbsp_entity());
    }
    p
}

fn amp_pattern() -> (p: Vec<char>)
    ensures
        p@ == amp_entity(),
{
    let mut p: Vec<char> = Vec::new();
    p.push('&');
    p.push('a');
    p.push('m');
    p.push('p');
    p.push(';');
    proof {
        assert(p@ =~= amp_entity());
    }
    p
}

fn lt_pattern() -> (p: Vec<char>)
    ensures
        p@ == lt_entity(),
{
    let mut p: Vec<char> = Vec::new();
    p.push('&');
    p.push('l');
    p.push('t');
    p.push(';');
    proof {
        assert(p@ =~= lt_entity());
    }
    p
}

fn gt_pattern() -> (p: Vec<char>)
    ensures
        p@ == gt_entity(),
{
    let mut p: Vec<char> = Vec::new();
    p.push('&');
    p.push('g');
    p.push('t');
    p.push(';');
    proof {
        assert(p@ =~= gt_entity());
    }
    p
}

fn replace_entities(v: &Vec<char>) -> (out: Vec<char>)
    ensures
        out@ == subst_entities(v@),
{
    let nbsp_p = nbsp_pattern();
    let amp_p = amp_pattern();
    let lt_p = lt_pattern();
    let gt_p = gt_pattern();
    let mut out: Vec<char> = Vec::new();
    let mut i: usize = 0;
    proof {
        assert(v@.skip(0) =~= v@);
        assert(out@ + subst_entities(v@) =~= subst_entities(v@));
    }
    while i < v.len()
        invariant
            i <= v@.len(),
            nbsp_p@ == nbsp_entity(),
            amp_p@ == amp_entity(),
            lt_p@ == lt_entity(),
            gt_p@ == gt_entity(),
            subst_entities(v@) == out@ + subst_entities(v@.skip(i as int)),
        decreases v@.len() - i,
    {
        let ghost rem = v@.skip(i as int);
        let ghost prev_out = out@;
        if starts_with_at(v, i, &nbsp_p) {
            out.push(' ');
            i = i + 6;
            proof {
                assert(rem.skip(6) =~= v@.skip(i as int));
                assert(prev_out + (seq![' '] + subst_entities(rem.skip(6))) =~= out@
                    + subst_entities(rem.skip(6)));
            }
        } else if starts_with_at(v, i, &amp_p) {
            out.push('&');
            i = i + 5;
            proof {
                assert(rem.skip(5) =~= v@.skip(i as int));
                assert(prev_out + (seq!['&'] + subst_entities(rem.skip(5))) =~= out@
                    + subst_entities(rem.skip(5)));
            }
        } else if starts_with_at(v, i, &lt_p) {
            out.push('<');
            i = i + 4;
            proof {
                assert(rem.skip(4) =~= v@.skip(i as int));
                assert(prev_out + (seq!['<'] + subst_entities(rem.skip(4))) =~= out@
                    + subst_entities(rem.skip(4)));
            }
        } else if starts_with_at(v, i, &gt_p) {
            out.push('>');
            i = i + 4;
            proof {
                assert(rem.skip(4) =~= v@.skip(i as int));
                assert(prev_out + (seq!['>'] + subst_entities(rem.skip(4))) =~= out@
                    + subst_entities(rem.skip(4)));
            }
        } else {
            let c = v[i];
            out.push(c);
            i = i + 1;
            proof {
                assert(rem[0] == c);
                assert(rem.drop_first() =~= v@.skip(i as int));
                assert(prev_out + (seq![c] + subst_entities(rem.drop_first())) =~= out@
                    + subst_entities(rem.drop_first()));
            }
        }
    }
    proof {
        assert(v@.skip(i as int) =~= Seq::<char>::empty());
        assert(out@ + subst_entities(Seq::<char>::empty()) =~= out@);
    }
    out
}

proof fn lemma_no_amp_no_entity(s: Seq<char>)
    requires
        s.len() == 0 || s[0] != '&',
    ensures
        !starts_with(s, nbsp_entity()),
        !starts_with(s, amp_entity()),
        !starts_with(s, lt_entity()),
        !starts_with(s, gt_entity()),
{
    if starts_with(s, nbsp_entity()) {
        assert(s.subrange(0, 6)[0] == s[0]);
    }
    if starts_with(s, amp_entity()) {
        assert(s.subrange(0, 5)[0] == s[0]);
    }
    if starts_with(s, lt_entity()) {
        assert(s.subrange(0, 4)[0] == s[0]);
    }
    if starts_with(s, gt_entity()) {
        assert(s.subrange(0, 4)[0] == s[0]);
    }
}

/// Law: on text containing no `<`, `>` or `&`, `strip` returns its input
/// unchanged, and is therefore idempotent there: stripping a second time
/// changes nothing.
pub proof fn lemma_strip_plain_text_idempotent(s: Seq<char>)
    requires
        forall|k: int| 0 <= k < s.len() ==> s[k] != '<' && s[k] != '>' && s[k] != '&',
    ensures
        spec_strip(s) == s,
        spec_strip(spec_strip(s)) == spec_strip(s),
{
    lemma_strip_tags_plain(s);
    lemma_subst_plain(s);
}

proof fn lemma_strip_tags_plain(s: Seq<char>)
    requires
        forall|k: int| 0 <= k < s.len() ==> s[k] != '<' && s[k] != '>',
    ensures
        strip_tags(s) == s,
    decreases s.len(),
{
    if s.len() == 0 {
        assert(strip_tags(s) =~= s);
    } else {
        assert(forall|k: int|
            0 <= k < s.drop_first().len() ==> s.drop_first()[k] == s[k + 1]);
        lemma_strip_tags_plain(s.drop_first());
        assert(seq![s[0]] + s.drop_first() =~= s);
    }
}

proof fn lemma_subst_plain(s: Seq<char>)
    requires
        forall|k: int| 0 <= k < s.len() ==> s[k] != '&',
    ensures
        subst_entities(s) == s,
    decreases s.len(),
{
    if s.len() == 0 {
        assert(subst_entities(s) =~= s);
    } else {
        lemma_no_amp_no_entity(s);
        assert(forall|k: int|
            0 <= k < s.drop_first().len() ==> s.drop_first()[k] == s[k + 1]);
        lemma_subst_plain(s.drop_first());
        assert(seq![s[0]] + s.drop_first() =~= s);
    }
}

} // verus!
