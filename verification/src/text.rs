//! Comma-separated lists: joining, splitting, and how the two relate.

use crate::error::ValidationError;
use vstd::prelude::*;

verus! {

/// The items of a list, with a comma between neighbours.
pub open spec fn comma_joined(items: Seq<Seq<char>>) -> Seq<char>
    decreases items.len(),
{
    if items.len() == 0 {
        Seq::empty()
    } else if items.len() == 1 {
        items[0]
    } else {
        comma_joined(items.drop_last()) + seq![','] + items.last()
    }
}

/// The pieces of a text between its commas: one more piece than commas.
pub open spec fn comma_split(text: Seq<char>) -> Seq<Seq<char>>
    decreases text.len(),
{
    if text.len() == 0 {
        seq![Seq::empty()]
    } else {
        let before = comma_split(text.drop_last());
        if text.last() == ',' {
            before.push(Seq::empty())
        } else {
            before.drop_last().push(before.last().push(text.last()))
        }
    }
}

/// Whether a text holds no comma.
pub open spec fn comma_free(text: Seq<char>) -> bool {
    forall|i: int| 0 <= i < text.len() ==> text[i] != ','
}

/// Splitting never yields an empty list.
pub proof fn lemma_split_nonempty(text: Seq<char>)
    ensures
        comma_split(text).len() >= 1,
    decreases text.len(),
{
    if text.len() > 0 {
        lemma_split_nonempty(text.drop_last());
    }
}

/// A comma at the end of a text opens a new, empty piece.
pub proof fn lemma_split_comma(text: Seq<char>)
    ensures
        comma_split(text + seq![',']) == comma_split(text).push(Seq::empty()),
{
    let whole = text + seq![','];
    assert(whole.drop_last() =~= text);
}

/// Text without a comma, put behind another text, extends its last piece.
pub proof fn lemma_split_extend(text: Seq<char>, tail: Seq<char>)
    requires
        comma_free(tail),
    ensures
        comma_split(text).len() >= 1,
        comma_split(text + tail) == comma_split(text).drop_last().push(
            comma_split(text).last() + tail,
        ),
    decreases tail.len(),
{
    lemma_split_nonempty(text);
    if tail.len() > 0 {
        let shorter = tail.drop_last();
        lemma_split_extend(text, shorter);
        let last = comma_split(text).last();
        assert((text + tail).drop_last() =~= text + shorter);
        assert((last + shorter).push(tail.last()) =~= last + tail);
    }
}

/// Joining a list of one or more texts, none of which holds a comma, and
/// splitting the result at its commas gives the list back.
pub proof fn lemma_split_of_joined(items: Seq<Seq<char>>)
    requires
        items.len() >= 1,
        forall|i: int| 0 <= i < items.len() ==> comma_free(#[trigger] items[i]),
    ensures
        comma_split(comma_joined(items)) == items,
    decreases items.len(),
{
    let empty = Seq::<char>::empty();
    if items.len() == 1 {
        lemma_split_extend(empty, items[0]);
    } else {
        let front = items.drop_last();
        lemma_split_of_joined(front);
        let head = comma_joined(front);
        lemma_split_comma(head);
        lemma_split_extend(head + seq![','], items.last());
    }
}

/// Splitting any text at its commas and joining the pieces gives the text
/// back.
pub proof fn lemma_joined_of_split(text: Seq<char>)
    ensures
        comma_joined(comma_split(text)) == text,
    decreases text.len(),
{
    if text.len() > 0 {
        let front = text.drop_last();
        let before = comma_split(front);
        lemma_joined_of_split(front);
        lemma_split_nonempty(front);
        let pieces = comma_split(text);
        if text.last() == ',' {
            assert(pieces.drop_last() =~= before);
        } else if before.len() > 1 {
            assert(pieces.drop_last() =~= before.drop_last());
            assert(comma_joined(pieces) =~= (comma_joined(before.drop_last()) + seq![',']
                + before.last()).push(text.last()));
        }
    }
}

/// One more item behind a joined list adds a comma and the item.
proof fn lemma_joined_step(items: Seq<Seq<char>>, n: int)
    requires
        1 <= n < items.len(),
    ensures
        comma_joined(items.take(n + 1)) == comma_joined(items.take(n)) + seq![','] + items[n],
{
    let longer = items.take(n + 1);
    assert(longer.drop_last() =~= items.take(n));
}

/// Joins the items of a list that has some.
pub(crate) fn join_some(items: &Vec<String>) -> (res: String)
    requires
        items.len() > 0,
    ensures
        res@ == comma_joined(items.deep_view()),
{
    let n: usize = items.len();
    let ghost views = items.deep_view();
    let mut out: String = items[0].clone();
    let mut i: usize = 1;
    while i < n
        invariant
            1 <= i <= n,
            n == items.len(),
            views == items.deep_view(),
            out@ == comma_joined(views.take(i as int)),
        decreases n - i,
    {
        proof {
            reveal_strlit(",");
            lemma_joined_step(views, i as int);
        }
        out.append(",");
        out.append(items[i].as_str());
        i = i + 1;
    }
    assert(views.take(n as int) =~= views);
    out
}

/// Joins the items of a list with commas. A list without items is refused.
pub fn join_list(items: &Vec<String>) -> (res: Result<String, ValidationError>)
    ensures
        items.len() == 0 ==> res == Err::<String, ValidationError>(ValidationError::EmptyList),
        items.len() > 0 ==> res is Ok && res->Ok_0@ == comma_joined(items.deep_view()),
{
    if items.len() == 0 {
        Err(ValidationError::EmptyList)
    } else {
        Ok(join_some(items))
    }
}

/// Splits a text at its commas.
pub fn split_list(text: &str) -> (res: Vec<String>)
    ensures
        res.deep_view() == comma_split(text@),
{
    let n: usize = text.unicode_len();
    let mut pieces: Vec<String> = Vec::new();
    let mut start: usize = 0;
    let mut i: usize = 0;
    assert(text@.take(0) =~= Seq::<char>::empty());
    while i < n
        invariant
            start <= i <= n,
            n == text@.len(),
            comma_split(text@.take(i as int)) == pieces.deep_view().push(
                text@.subrange(start as int, i as int),
            ),
        decreases n - i,
    {
        let c: char = text.get_char(i);
        let ghost piece = text@.subrange(start as int, i as int);
        assert(text@.take(i + 1).drop_last() =~= text@.take(i as int));
        if c == ',' {
            let done: String = text.substring_char(start, i).to_owned();
            pieces.push(done);
            start = i + 1;
            assert(text@.subrange(start as int, i + 1) =~= Seq::<char>::empty());
        } else {
            assert(piece.push(c) =~= text@.subrange(start as int, i + 1));
        }
        i = i + 1;
    }
    let last: String = text.substring_char(start, n).to_owned();
    pieces.push(last);
    assert(text@.take(n as int) =~= text@);
    pieces
}

} // verus!
