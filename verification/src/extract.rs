//! Reading the command out of a model's reply.
//!
//! The reply is searched for the literal tags `<command>` and `</command>`;
//! nothing of markup is understood beyond that.

use crate::text::{
    all_white_space, chars_of, contains, find_first, first_index_of, is_first_occurrence, is_trim,
    lemma_first_exists, lemma_first_index_of, lemma_trimmed_is_trim, lemma_trimmed_padded, occurs_at, trim, trimmed,
};
use vstd::prelude::*;

verus! {

/// The opening tag, `<command>`.
pub open spec fn open_tag() -> Seq<char> {
    seq!['<', 'c', 'o', 'm', 'm', 'a', 'n', 'd', '>']
}

/// The closing tag, `</command>`.
pub open spec fn close_tag() -> Seq<char> {
    seq!['<', '/', 'c', 'o', 'm', 'm', 'a', 'n', 'd', '>']
}

/// The marker by which the model says that no command exists, `<no_command/>`.
pub open spec fn no_command_marker() -> Seq<char> {
    seq!['<', 'n', 'o', '_', 'c', 'o', 'm', 'm', 'a', 'n', 'd', '/', '>']
}

/// The command that a reply holds: what stands between the end of the first
/// opening tag and the start of the first closing tag, trimmed. There is none
/// where a tag is missing or the closing tag starts before the opening tag
/// has ended.
pub open spec fn command_of(reply: Seq<char>) -> Option<Seq<char>> {
    match (first_index_of(reply, open_tag()), first_index_of(reply, close_tag())) {
        (Some(o), Some(c)) => if o + open_tag().len() <= c {
            Some(trimmed(reply.subrange(o + open_tag().len(), c)))
        } else {
            None
        },
        _ => None,
    }
}

/// The command that `reply` holds, or `None` where it holds none.
pub fn extract_command(reply: &str) -> (r: Option<String>)
    ensures
        match command_of(reply@) {
            Some(c) => r.is_some() && r.unwrap()@ == c,
            None => r.is_none(),
        },
{
    let chars = chars_of(reply);
    let open = chars_of("<command>");
    let close = chars_of("</command>");
    proof {
        reveal_strlit("<command>");
        reveal_strlit("</command>");
        assert(open@ =~= open_tag());
        assert(close@ =~= close_tag());
    }
    let start = find_first(&chars, &open);
    let end = find_first(&chars, &close);
    match (start, end) {
        (Some(o), Some(c)) => {
            assert(o + open@.len() <= chars.len());
            let from: usize = o + open.len();
            if from <= c {
                Some(trim(reply.substring_char(from, c)))
            } else {
                None
            }
        },
        _ => None,
    }
}

/// A tag starts with `<` and holds no other `<`.
pub open spec fn is_tag(pat: Seq<char>) -> bool {
    &&& pat.len() > 0
    &&& pat[0] == '<'
    &&& forall|k: int| 0 < k < pat.len() ==> #[trigger] pat[k] != '<'
}

/// An occurrence of a tag that covers a `<` of the text starts at that `<`.
proof fn lemma_tag_starts_at_mark(s: Seq<char>, pat: Seq<char>, j: int, q: int)
    requires
        is_tag(pat),
        occurs_at(s, pat, j),
        j <= q < j + pat.len(),
        s[q] == '<',
    ensures
        q == j,
{
    assert(s.subrange(j, j + pat.len())[q - j] == s[q]);
    assert(pat[q - j] == '<');
}

/// An occurrence in the whole text that lies inside a part of it is an
/// occurrence in that part.
proof fn lemma_occurs_in_part(s: Seq<char>, pat: Seq<char>, j: int, from: int, to: int)
    requires
        occurs_at(s, pat, j),
        0 <= from <= j,
        j + pat.len() <= to <= s.len(),
    ensures
        occurs_at(s.subrange(from, to), pat, j - from),
{
    assert(s.subrange(from, to).subrange(j - from, j - from + pat.len()) =~= s.subrange(
        j,
        j + pat.len(),
    ));
}

/// Where a reply is made of some text that holds neither tag, the opening
/// tag, a body that does not hold the closing tag, the closing tag and any
/// text after it, its command is the body, trimmed.
pub proof fn lemma_command_between(before: Seq<char>, body: Seq<char>, after: Seq<char>)
    requires
        !contains(before, open_tag()),
        !contains(before, close_tag()),
        !contains(body, close_tag()),
    ensures
        command_of(before + open_tag() + body + close_tag() + after) == Some(trimmed(body)),
{
    let s = before + open_tag() + body + close_tag() + after;
    let o = before.len() as int;
    let b = o + 9;
    let c = b + body.len();
    assert(is_tag(open_tag()));
    assert(is_tag(close_tag()));
    assert(s.subrange(0, o) =~= before);
    assert(s.subrange(o, b) =~= open_tag());
    assert(s.subrange(b, c) =~= body);
    assert(s.subrange(c, c + 10) =~= close_tag());
    assert(s[o] == open_tag()[0]);
    assert(s[o + 1] == open_tag()[1]);
    assert(s[c] == close_tag()[0]);
    assert(occurs_at(s, open_tag(), o));
    assert(occurs_at(s, close_tag(), c));
    assert forall|j: int| 0 <= j < o implies !occurs_at(s, open_tag(), j) by {
        if occurs_at(s, open_tag(), j) {
            if j + 9 <= o {
                lemma_occurs_in_part(s, open_tag(), j, 0, o);
                assert(occurs_at(before, open_tag(), j));
            } else {
                lemma_tag_starts_at_mark(s, open_tag(), j, o);
            }
        }
    }
    assert forall|j: int| 0 <= j < c implies !occurs_at(s, close_tag(), j) by {
        if occurs_at(s, close_tag(), j) {
            assert(s.subrange(j, j + 10)[0] == s[j]);
            assert(s[j] == '<');
            if j + 10 <= o {
                lemma_occurs_in_part(s, close_tag(), j, 0, o);
                assert(occurs_at(before, close_tag(), j));
            } else if j < o {
                lemma_tag_starts_at_mark(s, close_tag(), j, o);
            } else if j == o {
                assert(s.subrange(j, j + 10)[1] == s[j + 1]);
            } else if j < b {
                assert(s[j] == open_tag()[j - o]);
            } else if j + 10 <= c {
                lemma_occurs_in_part(s, close_tag(), j, b, c);
                assert(occurs_at(body, close_tag(), j - b));
            } else {
                lemma_tag_starts_at_mark(s, close_tag(), j, c);
            }
        }
    }
    lemma_first_index_of(s, open_tag(), o);
    lemma_first_index_of(s, close_tag(), c);
}

/// A reply that holds `<command>X</command>`, with neither tag before it and
/// no closing tag inside `X`, where `X` neither starts nor ends with white
/// space, has exactly `X` as its command.
pub proof fn command_of_plain_block(before: Seq<char>, x: Seq<char>, after: Seq<char>)
    requires
        !contains(before, open_tag()),
        !contains(before, close_tag()),
        !contains(x, close_tag()),
        is_trim(x),
    ensures
        command_of(before + open_tag() + x + close_tag() + after) == Some(x),
{
    lemma_command_between(before, x, after);
    assert(Seq::<char>::empty() + x + Seq::<char>::empty() =~= x);
    lemma_trimmed_padded(Seq::<char>::empty(), x, Seq::<char>::empty());
}

/// A reply that holds `<command>`, white space, `X`, white space and
/// `</command>`, with neither tag before the block and no closing tag inside
/// it, where `X` neither starts nor ends with white space, has `X` as its
/// command: the white space around it is removed.
pub proof fn command_of_padded_block(
    before: Seq<char>,
    left: Seq<char>,
    x: Seq<char>,
    right: Seq<char>,
    after: Seq<char>,
)
    requires
        !contains(before, open_tag()),
        !contains(before, close_tag()),
        !contains(left + x + right, close_tag()),
        all_white_space(left),
        all_white_space(right),
        is_trim(x),
    ensures
        command_of(before + open_tag() + (left + x + right) + close_tag() + after) == Some(x),
{
    lemma_command_between(before, left + x + right, after);
    lemma_trimmed_padded(left, x, right);
}

/// A command neither starts nor ends with white space.
pub proof fn command_of_is_trim(reply: Seq<char>)
    ensures
        command_of(reply).is_some() ==> is_trim(command_of(reply).unwrap()),
{
    if command_of(reply).is_some() {
        let o = first_index_of(reply, open_tag()).unwrap();
        let c = first_index_of(reply, close_tag()).unwrap();
        lemma_trimmed_is_trim(reply.subrange(o + open_tag().len(), c));
    }
}

/// A reply that holds the `<no_command/>` marker and no opening tag has no
/// command.
pub proof fn command_of_no_command_marker(reply: Seq<char>)
    requires
        contains(reply, no_command_marker()),
        !contains(reply, open_tag()),
    ensures
        command_of(reply).is_none(),
{
}

/// A reply has a command exactly where both tags occur and the first closing
/// tag does not start before the first opening tag has ended. So a reply in
/// which a tag is missing, or whose closing tag comes before its opening
/// tag, has none.
pub proof fn command_of_is_some(reply: Seq<char>)
    ensures
        command_of(reply).is_some() <==> exists|o: int, c: int|
            #![trigger is_first_occurrence(reply, open_tag(), o), is_first_occurrence(reply, close_tag(), c)]
            is_first_occurrence(reply, open_tag(), o) && is_first_occurrence(
                reply,
                close_tag(),
                c,
            ) && o + open_tag().len() <= c,
        !contains(reply, open_tag()) ==> command_of(reply).is_none(),
        !contains(reply, close_tag()) ==> command_of(reply).is_none(),
        forall|o: int, c: int|
            #![trigger is_first_occurrence(reply, open_tag(), o), is_first_occurrence(reply, close_tag(), c)]
            is_first_occurrence(reply, open_tag(), o) && is_first_occurrence(
                reply,
                close_tag(),
                c,
            ) && c < o ==> command_of(reply).is_none(),
{
    if command_of(reply).is_some() {
        let o = first_index_of(reply, open_tag()).unwrap();
        let c = first_index_of(reply, close_tag()).unwrap();
        assert(contains(reply, open_tag()));
        assert(contains(reply, close_tag()));
        let wo = choose|i: int| occurs_at(reply, open_tag(), i);
        lemma_first_exists(reply, open_tag(), wo);
        let wc = choose|i: int| occurs_at(reply, close_tag(), i);
        lemma_first_exists(reply, close_tag(), wc);
        assert(is_first_occurrence(reply, open_tag(), o));
        assert(is_first_occurrence(reply, close_tag(), c));
    }
    assert forall|o: int, c: int|
        is_first_occurrence(reply, open_tag(), o) && is_first_occurrence(
            reply,
            close_tag(),
            c,
        ) implies (o + open_tag().len() <= c <==> command_of(reply).is_some()) by {
        lemma_first_index_of(reply, open_tag(), o);
        lemma_first_index_of(reply, close_tag(), c);
    }
}

} // verus!
