//! The naming convention that turns a snake-case method identifier into the
//! camel-case member name used on the wire.
//!
//! The transform cuts the identifier at every underscore, upper-cases the first
//! character of each segment and concatenates the segments:
//! `entry_group_new` becomes `EntryGroupNew`.

use vstd::prelude::*;

verus! {

/// The ASCII upper-case form of `c`: the letters `a` to `z` are mapped to
/// `A` to `Z`, every other character is mapped to itself.
pub open spec fn ascii_upper(c: char) -> char {
    if 'a' <= c && c <= 'z' {
        ((c as u8) - 32) as char
    } else {
        c
    }
}

/// The segments of `s` between its underscores, in order.
///
/// A sequence with `n` underscores has `n + 1` segments, some of which may be
/// empty: `"a__b"` has the segments `"a"`, `""` and `"b"`.
pub open spec fn split(s: Seq<char>) -> Seq<Seq<char>>
    decreases s.len(),
{
    if s.len() == 0 {
        seq![Seq::empty()]
    } else {
        let before = split(s.drop_last());
        if s.last() == '_' {
            before.push(Seq::empty())
        } else {
            before.drop_last().push(before.last().push(s.last()))
        }
    }
}

/// The segments joined by single underscores.
pub open spec fn join(segments: Seq<Seq<char>>) -> Seq<char>
    decreases segments.len(),
{
    if segments.len() == 0 {
        Seq::empty()
    } else if segments.len() == 1 {
        segments[0]
    } else {
        join(segments.drop_last()).push('_') + segments.last()
    }
}

/// `segment` with its first character upper-cased and the rest unchanged.
pub open spec fn capitalize(segment: Seq<char>) -> Seq<char> {
    if segment.len() == 0 {
        segment
    } else {
        segment.update(0, ascii_upper(segment[0]))
    }
}

/// Every segment capitalized, in the same order.
pub open spec fn capitalize_all(segments: Seq<Seq<char>>) -> Seq<Seq<char>> {
    segments.map_values(|segment: Seq<char>| capitalize(segment))
}

/// The camel-case name of the snake-case identifier `s`: its segments,
/// each capitalized, concatenated.
pub open spec fn camel(s: Seq<char>) -> Seq<char> {
    capitalize_all(split(s)).flatten()
}

/// A character that may occur in a segment of a snake-case identifier:
/// a lower-case ASCII letter or a digit.
pub open spec fn is_snake_char(c: char) -> bool {
    ('a' <= c && c <= 'z') || ('0' <= c && c <= '9')
}

/// A segment of a snake-case identifier holds lower-case letters and digits only.
pub open spec fn is_snake_segment(segment: Seq<char>) -> bool {
    forall|j: int| 0 <= j < segment.len() ==> is_snake_char(#[trigger] segment[j])
}

/// `split` never returns an empty list of segments.
pub proof fn lemma_split_nonempty(s: Seq<char>)
    ensures
        split(s).len() > 0,
    decreases s.len(),
{
    if s.len() > 0 {
        lemma_split_nonempty(s.drop_last());
    }
}

/// What one more character does to the camel-case name: an underscore adds
/// nothing, a character that opens a segment is added upper-cased, and any
/// other character is added as it is.
pub proof fn lemma_camel_push(s: Seq<char>, c: char)
    ensures
        split(s).len() > 0,
        split(s.push(c)).len() > 0,
        c == '_' ==> camel(s.push(c)) == camel(s) && split(s.push(c)).last().len() == 0,
        c != '_' ==> split(s.push(c)).last().len() > 0,
        c != '_' && split(s).last().len() == 0 ==> camel(s.push(c)) == camel(s).push(
            ascii_upper(c),
        ),
        c != '_' && split(s).last().len() > 0 ==> camel(s.push(c)) == camel(s).push(c),
{
    broadcast use Seq::lemma_flatten_push;

    let t = s.push(c);
    lemma_split_nonempty(s);
    lemma_split_nonempty(t);
    assert(t.drop_last() =~= s);
    let before = split(s);
    let done = capitalize_all(before);
    let open = before.last();
    assert(before =~= before.drop_last().push(open));
    assert(done =~= capitalize_all(before.drop_last()).push(capitalize(open)));
    if c == '_' {
        assert(capitalize_all(split(t)) =~= done.push(Seq::empty()));
        assert(camel(t) =~= camel(s));
    } else {
        assert(capitalize_all(split(t)) =~= capitalize_all(before.drop_last()).push(
            capitalize(open.push(c)),
        ));
        if open.len() == 0 {
            assert(capitalize(open.push(c)) =~= capitalize(open).push(ascii_upper(c)));
            assert(camel(t) =~= camel(s).push(ascii_upper(c)));
        } else {
            assert(capitalize(open.push(c)) =~= capitalize(open).push(c));
            assert(camel(t) =~= camel(s).push(c));
        }
    }
}

/// No underscore reaches the camel-case name.
pub proof fn lemma_camel_has_no_underscore(s: Seq<char>)
    ensures
        forall|i: int| 0 <= i < camel(s).len() ==> #[trigger] camel(s)[i] != '_',
    decreases s.len(),
{
    if s.len() == 0 {
        assert(capitalize_all(split(s)) =~= seq![Seq::<char>::empty()]);
        seq![Seq::<char>::empty()].lemma_flatten_one_element();
    } else {
        let front = s.drop_last();
        lemma_camel_has_no_underscore(front);
        lemma_camel_push(front, s.last());
        assert(front.push(s.last()) =~= s);
    }
}

/// Cutting at the underscores undoes joining with underscores, as long as no
/// segment holds an underscore itself.
pub proof fn lemma_split_join(segments: Seq<Seq<char>>)
    requires
        segments.len() > 0,
        forall|i: int, j: int|
            0 <= i < segments.len() && 0 <= j < segments[i].len() ==> #[trigger] segments[i][j]
                != '_',
    ensures
        split(join(segments)) == segments,
    decreases segments.len(),
{
    let last = segments.last();
    assert(forall|j: int| 0 <= j < last.len() ==> #[trigger] last[j] != '_');
    if segments.len() == 1 {
        lemma_split_plain(Seq::empty(), last);
        assert(Seq::<char>::empty() + last =~= last);
        assert(seq![Seq::<char>::empty()].drop_last().push(Seq::<char>::empty() + last)
            =~= segments);
    } else {
        let front = segments.drop_last();
        lemma_split_join(front);
        let head = join(front).push('_');
        assert(head.drop_last() =~= join(front));
        assert(split(head) =~= front.push(Seq::empty()));
        lemma_split_plain(head, last);
        assert(Seq::<char>::empty() + last =~= last);
        assert(split(head + last) =~= segments);
    }
}

/// Characters other than underscores, added at the end, extend the last segment.
proof fn lemma_split_plain(head: Seq<char>, tail: Seq<char>)
    requires
        forall|j: int| 0 <= j < tail.len() ==> #[trigger] tail[j] != '_',
    ensures
        split(head).len() > 0,
        split(head + tail) == split(head).drop_last().push(split(head).last() + tail),
    decreases tail.len(),
{
    lemma_split_nonempty(head);
    let segments = split(head);
    if tail.len() == 0 {
        assert(head + tail =~= head);
        assert(segments.last() + tail =~= segments.last());
        assert(segments.drop_last().push(segments.last()) =~= segments);
    } else {
        let shorter = tail.drop_last();
        lemma_split_plain(head, shorter);
        let whole = head + tail;
        assert(whole.drop_last() =~= head + shorter);
        assert(whole.last() == tail.last());
        let before = split(head + shorter);
        assert(before.drop_last() =~= segments.drop_last());
        assert((segments.last() + shorter).push(tail.last()) =~= segments.last() + tail);
    }
}

/// The naming convention on snake-case identifiers: where lower-case
/// alphanumeric segments are joined by underscores, the camel-case name is
/// the segments concatenated, each with its first character upper-cased and
/// the rest unchanged.
pub proof fn lemma_camel_of_snake_case(segments: Seq<Seq<char>>)
    requires
        forall|i: int| 0 <= i < segments.len() ==> is_snake_segment(#[trigger] segments[i]),
    ensures
        camel(join(segments)) == capitalize_all(segments).flatten(),
{
    if segments.len() == 0 {
        let blank = seq![Seq::<char>::empty()];
        assert(capitalize_all(split(join(segments))) =~= blank);
        blank.lemma_flatten_one_element();
        assert(capitalize_all(segments).flatten() =~= Seq::<char>::empty());
    } else {
        assert forall|i: int, j: int|
            0 <= i < segments.len() && 0 <= j < segments[i].len() implies #[trigger] segments[i][j]
            != '_' by {
            assert(is_snake_segment(segments[i]));
            assert(is_snake_char(segments[i][j]));
        }
        lemma_split_join(segments);
    }
}

/// Upper-cases an ASCII letter and leaves every other character as it is.
pub fn to_ascii_upper(c: char) -> (upper: char)
    ensures
        upper == ascii_upper(c),
{
    if 'a' <= c && c <= 'z' {
        let code: u8 = c as u8;
        (code - 32) as char
    } else {
        c
    }
}

/// `String::push` of the standard library appends one character to the end
/// of the string and changes nothing else.
pub assume_specification[ String::push ](s: &mut String, ch: char)
    ensures
        final(s)@ == old(s)@.push(ch),
;

/// Turns a snake-case identifier into the camel-case member name used on the
/// wire: `entry_group_new` gives `EntryGroupNew`.
///
/// The transform is total. Underscores never reach the result, and only the
/// character that opens a segment is changed.
pub fn to_camel(term: &str) -> (name: String)
    ensures
        name@ == camel(term@),
        forall|i: int| 0 <= i < name@.len() ==> name@[i] != '_',
{
    let mut name = String::new();
    let mut at_new_word = true;
    assert(term@.take(0) =~= Seq::<char>::empty());
    assert(capitalize_all(split(Seq::<char>::empty())) =~= seq![Seq::<char>::empty()]);
    assert(seq![Seq::<char>::empty()].flatten() =~= Seq::<char>::empty()) by {
        seq![Seq::<char>::empty()].lemma_flatten_one_element();
    }
    for c in it: term.chars()
        invariant
            it.seq() == term@,
            name@ == camel(term@.take(it.index())),
            split(term@.take(it.index())).len() > 0,
            at_new_word == (split(term@.take(it.index())).last().len() == 0),
    {
        proof {
            lemma_camel_push(term@.take(it.index()), c);
            assert(term@.take(it.index() + 1) =~= term@.take(it.index()).push(c));
        }
        if c == '_' {
            at_new_word = true;
        } else if at_new_word {
            name.push(to_ascii_upper(c));
            at_new_word = false;
        } else {
            name.push(c);
        }
    }
    proof {
        assert(term@.take(term@.len() as int) =~= term@);
        lemma_camel_has_no_underscore(term@);
    }
    name
}

} // verus!
