//! Name normalizer: derives a display/type name from a field key written as
//! delimiter-separated words (`under_score` becomes `UnderScore`). The key is
//! split on underscores, the first character of each segment is upper-cased,
//! and the segments are concatenated with no separator.

use vstd::prelude::*;

verus! {

use vstd::string::StrSliceExecFns;
use vstd::string::StringExecFns;

/// Concatenation of a sequence of character sequences, in order.
pub open spec fn concat_all(ss: Seq<Seq<char>>) -> Seq<char>
    decreases ss.len(),
{
    if ss.len() == 0 {
        Seq::empty()
    } else {
        ss[0] + concat_all(ss.skip(1))
    }
}

/// The segments of `s` split on the delimiter `d`, as `str::split` yields
/// them: an empty input gives one empty segment, and every delimiter ends a
/// segment (possibly empty) and starts a new one.
pub open spec fn split_on(s: Seq<char>, d: char) -> Seq<Seq<char>>
    decreases s.len(),
{
    if s.len() == 0 {
        seq![Seq::<char>::empty()]
    } else if s[0] == d {
        seq![Seq::<char>::empty()] + split_on(s.skip(1), d)
    } else {
        let rest = split_on(s.skip(1), d);
        seq![seq![s[0]] + rest[0]] + rest.skip(1)
    }
}

/// Splitting always yields at least one segment.
pub proof fn lemma_split_on_nonempty(s: Seq<char>, d: char)
    ensures
        split_on(s, d).len() >= 1,
    decreases s.len(),
{
    if s.len() == 0 {
    } else {
        lemma_split_on_nonempty(s.skip(1), d);
    }
}

/// The uppercase mapping of one character, as `char::to_uppercase` yields it
/// (one or more characters).
pub uninterp spec fn upper_of(c: char) -> Seq<char>;

/// An ASCII lowercase letter.
pub open spec fn is_ascii_lower(c: char) -> bool {
    97 <= c as u32 <= 122
}

/// The ASCII uppercase counterpart of an ASCII lowercase letter.
pub open spec fn ascii_upper(c: char) -> char {
    (((c as u32) - 0x20) as u32) as char
}

/// A segment on which upper-casing the first character is plain ASCII:
/// it is empty or starts with an ASCII lowercase letter.
pub open spec fn seg_starts_lower(seg: Seq<char>) -> bool {
    seg.len() == 0 || is_ascii_lower(seg[0])
}

/// Every underscore-separated segment of `s` is empty or starts with an
/// ASCII lowercase letter.
pub open spec fn lowercase_segments(s: Seq<char>) -> bool {
    forall|j: int|
        0 <= j < split_on(s, '_').len() ==> seg_starts_lower(#[trigger] split_on(s, '_')[j])
}

/// A segment with its first character replaced by its uppercase mapping.
pub open spec fn cap_first(seg: Seq<char>) -> Seq<char> {
    if seg.len() == 0 {
        Seq::empty()
    } else {
        upper_of(seg[0]) + seg.skip(1)
    }
}

/// `cap_first` written out for a segment that is empty or starts with an
/// ASCII lowercase letter: the first character moves up by one case.
pub open spec fn cap_first_ascii(seg: Seq<char>) -> Seq<char> {
    if seg.len() == 0 {
        Seq::empty()
    } else {
        seq![ascii_upper(seg[0])] + seg.skip(1)
    }
}

/// The normalized display name of a field key: each underscore-separated
/// segment with its first character upper-cased, concatenated.
pub open spec fn normalized_name(s: Seq<char>) -> Seq<char> {
    concat_all(split_on(s, '_').map_values(|seg: Seq<char>| cap_first(seg)))
}

/// `normalized_name` written out for keys made of lowercase segments.
pub open spec fn camel_name(s: Seq<char>) -> Seq<char> {
    concat_all(split_on(s, '_').map_values(|seg: Seq<char>| cap_first_ascii(seg)))
}

/// Relies on `char::to_uppercase`: the Unicode uppercase mapping of the
/// character, a function of the character alone; an ASCII lowercase letter
/// maps to the single corresponding ASCII uppercase letter.
#[verifier::external_body]
fn char_to_uppercase(c: char) -> (r: String)
    ensures
        r@ == upper_of(c),
        is_ascii_lower(c) ==> r@ == seq![ascii_upper(c)],
{
    c.to_uppercase().collect()
}

/// Relies on `itertools::join`: writes each item's text with the separator
/// between items; with an empty separator, the concatenation of the strings.
#[verifier::external_body]
fn join_segments(parts: &Vec<String>) -> (r: String)
    ensures
        r@ == concat_all(parts.deep_view()),
{
    itertools::join(parts.iter(), "")
}

/// The underscore-separated segments of `s`, in order.
fn split_underscores(s: &str) -> (segs: Vec<String>)
    ensures
        segs@.len() == split_on(s@, '_').len(),
        forall|j: int| 0 <= j < segs@.len() ==> (#[trigger] segs@[j])@ == split_on(s@, '_')[j],
{
    let n = s.unicode_len();
    let mut segs: Vec<String> = Vec::new();
    let mut end: usize = n;
    let mut i: usize = n;
    proof {
        assert(s@.skip(n as int) =~= Seq::<char>::empty());
        assert(s@.subrange(n as int, n as int) =~= Seq::<char>::empty());
    }
    while i > 0
        invariant
            n == s@.len(),
            0 <= i <= end <= n,
            split_on(s@.skip(i as int), '_').len() == 1 + segs@.len(),
            split_on(s@.skip(i as int), '_')[0] == s@.subrange(i as int, end as int),
            forall|j: int|
                0 <= j < segs@.len() ==> split_on(s@.skip(i as int), '_')[j + 1] == (
                #[trigger] segs@[j])@,
        decreases i,
    {
        let c = s.get_char(i - 1);
        proof {
            assert(s@.skip((i - 1) as int)[0] == s@[i - 1]);
            assert(s@.skip((i - 1) as int).skip(1) =~= s@.skip(i as int));
            lemma_split_on_nonempty(s@.skip(i as int), '_');
        }
        if c == '_' {
            let seg = String::from_str(s.substring_char(i, end));
            segs.insert(0, seg);
            end = i - 1;
            proof {
                assert(split_on(s@.skip((i - 1) as int), '_') =~= seq![
                    Seq::<char>::empty(),
                ] + split_on(s@.skip(i as int), '_'));
                assert(s@.subrange((i - 1) as int, (i - 1) as int) =~= Seq::<char>::empty());
            }
        } else {
            proof {
                let rest = split_on(s@.skip(i as int), '_');
                assert(split_on(s@.skip((i - 1) as int), '_') =~= seq![
                    seq![s@[i - 1]] + rest[0],
                ] + rest.skip(1));
                assert(seq![s@[i - 1]] + s@.subrange(i as int, end as int) =~= s@.subrange(
                    (i - 1) as int,
                    end as int,
                ));
            }
        }
        i = i - 1;
    }
    proof {
        assert(s@.skip(0) =~= s@);
    }
    let first = String::from_str(s.substring_char(0, end));
    segs.insert(0, first);
    segs
}

/// Upper-cases the first character of `s` and keeps the rest unchanged.
pub fn capitalise_first_letter(s: &str) -> (r: String)
    ensures
        r@ == cap_first(s@),
        seg_starts_lower(s@) ==> r@ == cap_first_ascii(s@),
{
    let n = s.unicode_len();
    if n == 0 {
        String::new()
    } else {
        let first = s.get_char(0);
        let up = char_to_uppercase(first);
        let rest = s.substring_char(1, n);
        proof {
            assert(s@.subrange(1, s@.len() as int) =~= s@.skip(1));
        }
        up.concat(rest)
    }
}

/// Normalizes a field key to a display name: splits on underscores,
/// upper-cases the first character of each segment, and concatenates with no
/// separator. On a key made of lowercase segments the result is exactly the
/// segments first-upper-cased and concatenated.
pub fn name_from_field_name(field_name: &str) -> (r: String)
    ensures
        r@ == normalized_name(field_name@),
        lowercase_segments(field_name@) ==> r@ == camel_name(field_name@),
{
    let segs = split_underscores(field_name);
    let mut caps: Vec<String> = Vec::new();
    let mut i: usize = 0;
    while i < segs.len()
        invariant
            segs@.len() == split_on(field_name@, '_').len(),
            forall|j: int|
                0 <= j < segs@.len() ==> (#[trigger] segs@[j])@ == split_on(field_name@, '_')[j],
            0 <= i <= segs@.len(),
            caps@.len() == i,
            forall|j: int|
                0 <= j < i ==> (#[trigger] caps@[j])@ == cap_first(split_on(field_name@, '_')[j]),
            forall|j: int|
                0 <= j < i && seg_starts_lower(split_on(field_name@, '_')[j]) ==> (
                #[trigger] caps@[j])@ == cap_first_ascii(split_on(field_name@, '_')[j]),
        decreases segs@.len() - i,
    {
        let cap = capitalise_first_letter(segs[i].as_str());
        caps.push(cap);
        i += 1;
    }
    let r = join_segments(&caps);
    proof {
        assert(caps.deep_view() =~= split_on(field_name@, '_').map_values(
            |seg: Seq<char>| cap_first(seg),
        ));
        if lowercase_segments(field_name@) {
            assert(caps.deep_view() =~= split_on(field_name@, '_').map_values(
                |seg: Seq<char>| cap_first_ascii(seg),
            ));
        }
    }
    r
}

} // verus!
