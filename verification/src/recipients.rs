//! Recipient parsing: a raw `to` string is split on commas, each segment is
//! trimmed of surrounding whitespace, and every segment must parse as a
//! mailbox or the whole operation fails naming the first invalid entry.

use vstd::prelude::*;

use crate::strutil::{chars_of, string_from_chars};

verus! {

#[verifier::external_type_specification]
#[verifier::external_body]
pub struct ExMailbox(lettre::message::Mailbox);

/// The canonical (display-name, address) content of a mailbox value, as a
/// character sequence. Opaque: contracts only relate it across operations.
pub uninterp spec fn mailbox_repr(m: lettre::message::Mailbox) -> Seq<char>;

/// What lettre's mailbox parser yields on a given string: `Some` canonical
/// content exactly when the string parses as a mailbox. The outcome is a
/// function of the string alone.
pub uninterp spec fn parsed_mailbox(s: Seq<char>) -> Option<Seq<char>>;

/// Whether a string parses as a valid mailbox.
pub open spec fn mailbox_ok(s: Seq<char>) -> bool {
    parsed_mailbox(s) is Some
}

/// Relies on `<lettre::message::Mailbox as FromStr>::from_str`: parses an
/// RFC 5322-style mailbox (`Name <user@domain>` or `user@domain`); whether it
/// succeeds, and the mailbox it yields, depend on the input string alone.
#[verifier::external_body]
pub(crate) fn parse_mailbox(s: &str) -> (r: Option<lettre::message::Mailbox>)
    ensures
        r is Some <==> mailbox_ok(s@),
        r is Some ==> mailbox_repr(r->Some_0) == parsed_mailbox(s@)->Some_0,
{
    s.parse().ok()
}

/// Relies on the derived `Clone` for `lettre::message::Mailbox`: a clone is
/// an equal mailbox value.
pub assume_specification[ <lettre::message::Mailbox as Clone>::clone ](
    m: &lettre::message::Mailbox,
) -> (r: lettre::message::Mailbox)
    ensures
        mailbox_repr(r) == mailbox_repr(*m),
;

/// The whitespace characters trimmed around each comma-separated segment.
pub open spec fn is_space(c: char) -> bool {
    c == ' ' || c == '\t' || c == '\n' || c == '\r' || c == '\u{b}' || c == '\u{c}'
}

pub open spec fn trim_front(s: Seq<char>) -> Seq<char>
    decreases s.len(),
{
    if s.len() > 0 && is_space(s[0]) {
        trim_front(s.drop_first())
    } else {
        s
    }
}

pub open spec fn trim_back(s: Seq<char>) -> Seq<char>
    decreases s.len(),
{
    if s.len() > 0 && is_space(s.last()) {
        trim_back(s.drop_last())
    } else {
        s
    }
}

/// A segment with surrounding whitespace removed.
pub open spec fn trim_spec(s: Seq<char>) -> Seq<char> {
    trim_back(trim_front(s))
}

/// Index of the first comma, or the length of the sequence if there is none.
pub open spec fn first_comma(s: Seq<char>) -> nat
    decreases s.len(),
{
    if s.len() == 0 {
        0
    } else if s[0] == ',' {
        0
    } else {
        1 + first_comma(s.drop_first())
    }
}

/// The comma-separated segments of a string, in order. Splitting never drops
/// characters other than the commas themselves and always yields at least one
/// segment (the empty string splits into one empty segment).
pub open spec fn split_commas(s: Seq<char>) -> Seq<Seq<char>>
    decreases s.len(),
{
    let fc = first_comma(s);
    if fc >= s.len() {
        seq![s]
    } else {
        seq![s.subrange(0, fc as int)] + split_commas(s.skip(fc + 1 as int))
    }
}

/// Whether every whitespace-trimmed comma-split segment of `to` parses as a
/// mailbox.
pub open spec fn recipients_ok(to: Seq<char>) -> bool {
    forall|k: int|
        0 <= k < split_commas(to).len() ==> mailbox_ok(#[trigger] trim_spec(split_commas(to)[k]))
}

/// Splitting always yields at least one segment.
pub proof fn lemma_split_commas_nonempty(s: Seq<char>)
    ensures
        split_commas(s).len() >= 1,
{
    let fc = first_comma(s);
    if fc >= s.len() {
        assert(split_commas(s).len() == 1);
    } else {
        assert(split_commas(s).len() == 1 + split_commas(s.skip(fc + 1 as int)).len());
    }
}

proof fn lemma_first_comma_all_clear(p: Seq<char>)
    requires
        forall|k: int| 0 <= k < p.len() ==> p[k] != ',',
    ensures
        first_comma(p) == p.len(),
    decreases p.len(),
{
    if p.len() > 0 {
        assert(forall|k: int|
            0 <= k < p.drop_first().len() ==> p.drop_first()[k] == p[k + 1]);
        lemma_first_comma_all_clear(p.drop_first());
    }
}

/// A comma-free string splits into exactly itself.
proof fn lemma_split_comma_free(p: Seq<char>)
    requires
        forall|k: int| 0 <= k < p.len() ==> p[k] != ',',
    ensures
        split_commas(p) == seq![p],
{
    lemma_first_comma_all_clear(p);
}

proof fn lemma_first_comma_concat(p: Seq<char>, s: Seq<char>)
    requires
        forall|k: int| 0 <= k < p.len() ==> p[k] != ',',
        s.len() > 0,
        s[0] == ',',
    ensures
        first_comma(p + s) == p.len(),
    decreases p.len(),
{
    if p.len() == 0 {
        assert(p + s =~= s);
    } else {
        assert((p + s)[0] == p[0]);
        assert((p + s).drop_first() =~= p.drop_first() + s);
        assert(forall|k: int|
            0 <= k < p.drop_first().len() ==> p.drop_first()[k] == p[k + 1]);
        lemma_first_comma_concat(p.drop_first(), s);
    }
}

/// Splitting `p + s` where `p` is comma-free and `s` starts with a comma
/// yields `p` followed by the split of the rest of `s`.
proof fn lemma_split_step(p: Seq<char>, s: Seq<char>)
    requires
        forall|k: int| 0 <= k < p.len() ==> p[k] != ',',
        s.len() > 0,
        s[0] == ',',
    ensures
        split_commas(p + s) == seq![p] + split_commas(s.drop_first()),
{
    lemma_first_comma_concat(p, s);
    assert((p + s).subrange(0, p.len() as int) =~= p);
    assert((p + s).skip(p.len() as int + 1) =~= s.drop_first());
}

fn is_space_char(c: char) -> (b: bool)
    ensures
        b == is_space(c),
{
    c == ' ' || c == '\t' || c == '\n' || c == '\r' || c == '\u{b}' || c == '\u{c}'
}

proof fn lemma_trim_front_skip(s: Seq<char>, a: int)
    requires
        0 <= a <= s.len(),
        forall|k: int| 0 <= k < a ==> is_space(s[k]),
        a < s.len() ==> !is_space(s[a]),
    ensures
        trim_front(s) == s.skip(a),
    decreases a,
{
    if a == 0 {
        assert(s.skip(0) =~= s);
    } else {
        assert(is_space(s[0]));
        assert(forall|k: int|
            0 <= k < s.drop_first().len() ==> s.drop_first()[k] == s[k + 1]);
        lemma_trim_front_skip(s.drop_first(), a - 1);
        assert(s.drop_first().skip(a - 1) =~= s.skip(a));
    }
}

proof fn lemma_trim_back_subrange(s: Seq<char>, b: int)
    requires
        0 <= b <= s.len(),
        forall|k: int| b <= k < s.len() ==> is_space(s[k]),
        b > 0 ==> !is_space(s[b - 1]),
    ensures
        trim_back(s) == s.subrange(0, b),
    decreases s.len(),
{
    if b == s.len() {
        if s.len() > 0 {
            assert(!is_space(s.last()));
        }
        assert(s.subrange(0, b) =~= s);
    } else {
        assert(is_space(s.last()));
        let t = s.drop_last();
        assert(forall|k: int| b <= k < t.len() ==> t[k] == s[k]);
        lemma_trim_back_subrange(t, b);
        assert(t.subrange(0, b) =~= s.subrange(0, b));
    }
}

/// Removes the whitespace characters around the content of `v`.
fn trim_vec(v: &Vec<char>) -> (out: Vec<char>)
    ensures
        out@ == trim_spec(v@),
{
    let mut a: usize = 0;
    while a < v.len() && is_space_char(v[a])
        invariant
            a <= v@.len(),
            forall|k: int| 0 <= k < a ==> is_space(v@[k]),
        decreases v@.len() - a,
    {
        a = a + 1;
    }
    proof {
        lemma_trim_front_skip(v@, a as int);
    }
    let mut b: usize = v.len();
    while b > a && is_space_char(v[b - 1])
        invariant
            a <= b <= v@.len(),
            forall|k: int| 0 <= k < a ==> is_space(v@[k]),
            forall|k: int| b <= k < v@.len() ==> is_space(v@[k]),
        decreases b,
    {
        b = b - 1;
    }
    proof {
        let front = v@.skip(a as int);
        assert(forall|k: int|
            (b - a) <= k < front.len() ==> front[k] == v@[k + a] && is_space(front[k]));
        if b > a {
            assert(front[b - a - 1] == v@[b as int - 1]);
        }
        lemma_trim_back_subrange(front, b - a);
    }
    let mut out: Vec<char> = Vec::new();
    let mut i: usize = a;
    while i < b
        invariant
            a <= i <= b <= v@.len(),
            out@ == v@.subrange(a as int, i as int),
        decreases b - i,
    {
        out.push(v[i]);
        i = i + 1;
        proof {
            assert(out@ =~= v@.subrange(a as int, i as int));
        }
    }
    proof {
        assert(v@.skip(a as int).subrange(0, b - a) =~= v@.subrange(a as int, b as int));
    }
    out
}

/// Splits `v` on commas; segments keep their surrounding whitespace.
fn split_on_commas(v: &Vec<char>) -> (segs: Vec<Vec<char>>)
    ensures
        segs@.len() == split_commas(v@).len(),
        forall|k: int| 0 <= k < segs@.len() ==> segs@[k]@ == split_commas(v@)[k],
{
    let ghost whole = split_commas(v@);
    let mut segs: Vec<Vec<char>> = Vec::new();
    let mut cur: Vec<char> = Vec::new();
    let mut i: usize = 0;
    proof {
        assert(cur@ + v@.skip(0) =~= v@);
        assert(whole.skip(0) =~= whole);
    }
    while i < v.len()
        invariant
            i <= v@.len(),
            whole == split_commas(v@),
            forall|k: int| 0 <= k < cur@.len() ==> cur@[k] != ',',
            segs@.len() <= whole.len(),
            forall|k: int| 0 <= k < segs@.len() ==> segs@[k]@ == whole[k],
            split_commas(cur@ + v@.skip(i as int)) == whole.skip(segs@.len() as int),
        decreases v@.len() - i,
    {
        let ghost rest = v@.skip(i as int);
        let ghost prev_cur = cur@;
        let c = v[i];
        if c == ',' {
            proof {
                let n = segs@.len() as int;
                assert(rest[0] == ',');
                lemma_split_step(prev_cur, rest);
                let tailsplit = split_commas(rest.drop_first());
                assert(whole.skip(n) == seq![prev_cur] + tailsplit);
                assert((seq![prev_cur] + tailsplit)[0] == prev_cur);
                assert(whole.skip(n).len() == whole.len() - n);
                assert(whole.skip(n) =~= whole.subrange(n, whole.len() as int));
                assert(whole.subrange(n, whole.len() as int)[0] == whole[n]);
                assert(whole[n] == prev_cur);
                assert(rest.drop_first() =~= v@.skip(i + 1));
                assert((seq![prev_cur] + tailsplit).drop_first() =~= tailsplit);
                assert(whole.skip(n).drop_first() =~= whole.skip(n + 1));
                assert(tailsplit == whole.skip(n + 1));
            }
            let done = cur;
            segs.push(done);
            cur = Vec::new();
            proof {
                assert(cur@ + v@.skip(i + 1) =~= v@.skip(i + 1));
            }
        } else {
            cur.push(c);
            proof {
                assert(prev_cur + rest =~= cur@ + v@.skip(i + 1));
            }
        }
        i = i + 1;
    }
    proof {
        let n = segs@.len() as int;
        assert(cur@ + v@.skip(i as int) =~= cur@);
        lemma_split_comma_free(cur@);
        assert(whole.skip(n) == seq![cur@]);
        assert(whole.skip(n).len() == whole.len() - n);
        assert(whole.len() == n + 1);
        assert(whole.skip(n) =~= whole.subrange(n, whole.len() as int));
        assert(whole.subrange(n, whole.len() as int)[0] == whole[n]);
        assert(whole[n] == cur@);
    }
    segs.push(cur);
    segs
}

/// Parses a comma-separated recipient list into mailboxes.
///
/// The mailboxes correspond one to one, in order, to the whitespace-trimmed
/// comma-split segments of the input. If any segment fails to parse, the
/// whole operation fails with a message naming the first invalid entry, and
/// no partial list is returned.
pub fn parse_recipients(to: &str) -> (r: Result<Vec<lettre::message::Mailbox>, String>)
    ensures
        match r {
            Ok(mbs) => {
                &&& mbs@.len() == split_commas(to@).len()
                &&& forall|k: int|
                    0 <= k < mbs@.len() ==> mailbox_ok(
                        #[trigger] trim_spec(split_commas(to@)[k]),
                    )
                &&& forall|k: int|
                    0 <= k < mbs@.len() ==> mailbox_repr(#[trigger] mbs@[k]) == parsed_mailbox(
                        trim_spec(split_commas(to@)[k]),
                    )->Some_0
            },
            Err(msg) => exists|j: int|
                {
                    &&& 0 <= j < split_commas(to@).len()
                    &&& !mailbox_ok(#[trigger] trim_spec(split_commas(to@)[j]))
                    &&& forall|k: int|
                        0 <= k < j ==> mailbox_ok(#[trigger] trim_spec(split_commas(to@)[k]))
                    &&& msg@ == "invalid recipient: "@ + trim_spec(split_commas(to@)[j])
                },
        },
{
    let cs = chars_of(to);
    let segs = split_on_commas(&cs);
    let mut out: Vec<lettre::message::Mailbox> = Vec::new();
    let mut j: usize = 0;
    while j < segs.len()
        invariant
            j <= segs@.len(),
            out@.len() == j,
            segs@.len() == split_commas(to@).len(),
            forall|k: int| 0 <= k < segs@.len() ==> segs@[k]@ == split_commas(to@)[k],
            forall|k: int|
                0 <= k < j ==> mailbox_ok(#[trigger] trim_spec(split_commas(to@)[k])),
            forall|k: int|
                0 <= k < j ==> mailbox_repr(#[trigger] out@[k]) == parsed_mailbox(
                    trim_spec(split_commas(to@)[k]),
                )->Some_0,
        decreases segs@.len() - j,
    {
        let t = trim_vec(&segs[j]);
        let ts = string_from_chars(&t);
        match parse_mailbox(ts.as_str()) {
            Some(mb) => {
                out.push(mb);
            },
            None => {
                let mut msg = String::from_str("invalid recipient: ");
                msg.append(ts.as_str());
                proof {
                    let jx = j as int;
                    assert(!mailbox_ok(trim_spec(split_commas(to@)[jx])));
                    assert(msg@ == "invalid recipient: "@ + trim_spec(split_commas(to@)[jx]));
                }
                return Err(msg);
            },
        }
        j = j + 1;
    }
    Ok(out)
}

} // verus!
