//! Sequences of characters: lists written with a separator, and the places
//! where one text occurs in another.

use vstd::prelude::*;

verus! {

/// The `i`-th piece of a written list: `items[i]`, behind the separator
/// unless it comes first.
pub open spec fn piece(items: Seq<Seq<char>>, sep: Seq<char>, i: int) -> Seq<char> {
    if i == 0 {
        items[i]
    } else {
        sep + items[i]
    }
}

/// `items` in order, with `sep` between neighbours and nowhere else.
pub open spec fn separated(items: Seq<Seq<char>>, sep: Seq<char>) -> Seq<char> {
    Seq::new(items.len(), |i: int| piece(items, sep, i)).flatten()
}

/// `needle` stands in `hay` from position `at` on.
pub open spec fn occurs_at(needle: Seq<char>, hay: Seq<char>, at: int) -> bool {
    &&& 0 <= at
    &&& at + needle.len() <= hay.len()
    &&& hay.subrange(at, at + needle.len()) == needle
}

/// `needle` stands somewhere in `hay`.
pub open spec fn occurs_in(needle: Seq<char>, hay: Seq<char>) -> bool {
    exists|at: int| occurs_at(needle, hay, at)
}

/// Concatenation may be grouped either way.
pub proof fn lemma_concat_grouping(a: Seq<char>, b: Seq<char>, c: Seq<char>)
    ensures
        (a + b) + c == a + (b + c),
{
    assert((a + b) + c =~= a + (b + c));
}

/// A text that is written between two others occurs in the whole.
pub proof fn lemma_occurs_between(before: Seq<char>, needle: Seq<char>, after: Seq<char>)
    ensures
        occurs_at(needle, before + needle + after, before.len() as int),
        occurs_in(needle, before + needle + after),
{
    let hay = before + needle + after;
    assert(hay.subrange(before.len() as int, (before.len() + needle.len()) as int) =~= needle);
}

/// A text that begins another occurs in it, at its start.
pub proof fn lemma_starts_with(head: Seq<char>, rest: Seq<char>)
    ensures
        head.is_prefix_of(head + rest),
        occurs_in(head, head + rest),
{
    let text = head + rest;
    assert(head =~= text.subrange(0, head.len() as int));
    assert(text =~= Seq::<char>::empty() + head + rest);
    lemma_occurs_between(Seq::empty(), head, rest);
}

/// A list of no items is written as nothing.
pub proof fn lemma_separated_empty(sep: Seq<char>)
    ensures
        separated(Seq::empty(), sep) == Seq::<char>::empty(),
{
    assert(Seq::new(0, |i: int| piece(Seq::empty(), sep, i)) =~= Seq::<Seq<char>>::empty());
}

/// One more item at the end of a list adds its piece at the end of the text.
pub proof fn lemma_separated_push(items: Seq<Seq<char>>, sep: Seq<char>, item: Seq<char>)
    ensures
        separated(items.push(item), sep) == separated(items, sep) + piece(
            items.push(item),
            sep,
            items.len() as int,
        ),
{
    let longer = items.push(item);
    let before = Seq::new(items.len(), |i: int| piece(items, sep, i));
    let after = Seq::new(longer.len(), |i: int| piece(longer, sep, i));
    assert(after =~= before.push(piece(longer, sep, items.len() as int)));
    before.lemma_flatten_push(piece(longer, sep, items.len() as int));
}

/// A list of one item is that item.
pub proof fn lemma_separated_one(item: Seq<char>, sep: Seq<char>)
    ensures
        separated(seq![item], sep) == item,
{
    lemma_separated_empty(sep);
    lemma_separated_push(Seq::empty(), sep, item);
    assert(Seq::<Seq<char>>::empty().push(item) =~= seq![item]);
    assert(Seq::<char>::empty() + item =~= item);
}

/// A list of two items is the first, the separator, the second.
pub proof fn lemma_separated_two(first: Seq<char>, second: Seq<char>, sep: Seq<char>)
    ensures
        separated(seq![first, second], sep) == first + sep + second,
{
    lemma_separated_one(first, sep);
    lemma_separated_push(seq![first], sep, second);
    assert(seq![first].push(second) =~= seq![first, second]);
    lemma_concat_grouping(first, sep, second);
}

/// A list of three items is written with two separators.
pub proof fn lemma_separated_three(
    first: Seq<char>,
    second: Seq<char>,
    third: Seq<char>,
    sep: Seq<char>,
)
    ensures
        separated(seq![first, second, third], sep) == first + sep + second + sep + third,
{
    lemma_separated_two(first, second, sep);
    lemma_separated_push(seq![first, second], sep, third);
    assert(seq![first, second].push(third) =~= seq![first, second, third]);
    lemma_concat_grouping(first + sep + second, sep, third);
}

/// No separator stands behind the last item of a list: the text ends with
/// that item.
pub proof fn lemma_separated_ends_with_last(items: Seq<Seq<char>>, sep: Seq<char>)
    requires
        items.len() > 0,
    ensures
        items.last().is_suffix_of(separated(items, sep)),
{
    let front = items.drop_last();
    let whole = separated(items, sep);
    lemma_separated_push(front, sep, items.last());
    assert(front.push(items.last()) =~= items);
    if front.len() == 0 {
        lemma_separated_empty(sep);
        assert(whole =~= items.last());
        assert(whole.subrange(0, whole.len() as int) =~= whole);
    } else {
        let head = separated(front, sep) + sep;
        assert(whole =~= head + items.last());
        assert(whole.subrange(whole.len() - items.last().len(), whole.len() as int)
            =~= items.last());
    }
}

} // verus!
