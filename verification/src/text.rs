//! Comparing, joining and assembling text.

use vstd::prelude::*;

verus! {

/// The characters of each string of a list.
pub open spec fn texts(lines: Seq<String>) -> Seq<Seq<char>> {
    lines.map_values(|line: String| line@)
}

/// The characters of each string slice of a list.
pub open spec fn slices(names: Seq<&str>) -> Seq<Seq<char>> {
    names.map_values(|name: &str| name@)
}

/// An outcome, its error by its characters.
pub open spec fn outcome(result: Result<(), String>) -> Result<(), Seq<char>> {
    match result {
        Ok(()) => Ok(()),
        Err(error) => Err(error@),
    }
}

/// The items one after the other, with the separator between neighbours.
pub open spec fn joined(items: Seq<Seq<char>>, separator: Seq<char>) -> Seq<char>
    decreases items.len(),
{
    if items.len() == 0 {
        Seq::empty()
    } else if items.len() == 1 {
        items[0]
    } else {
        joined(items.drop_last(), separator) + separator + items.last()
    }
}

/// How a log line writes a boolean.
pub open spec fn bool_text(value: bool) -> Seq<char> {
    if value {
        "true"@
    } else {
        "false"@
    }
}

/// Dictionary order: `left` is a proper prefix of `right`, or has the smaller character
/// where the two first differ.
pub open spec fn precedes(left: Seq<char>, right: Seq<char>) -> bool {
    exists|k: int| #[trigger] first_differs_at(left, right, k)
}

/// The two texts agree on their first `k` characters, and `left` comes first by what follows.
pub open spec fn first_differs_at(left: Seq<char>, right: Seq<char>, k: int) -> bool {
    &&& 0 <= k <= left.len()
    &&& k < right.len()
    &&& left.take(k) == right.take(k)
    &&& k < left.len() ==> left[k] < right[k]
}

/// Whether two string slices hold the same characters.
pub fn same_text(left: &str, right: &str) -> (same: bool)
    ensures
        same == (left@ == right@),
{
    let left_bytes = left.as_bytes();
    let right_bytes = right.as_bytes();
    proof {
        vstd::utf8::encode_utf8_decode_utf8(left@);
        vstd::utf8::encode_utf8_decode_utf8(right@);
    }
    if left_bytes.len() != right_bytes.len() {
        return false;
    }
    for i in 0..left_bytes.len()
        invariant
            left_bytes@ == vstd::utf8::encode_utf8(left@),
            right_bytes@ == vstd::utf8::encode_utf8(right@),
            left_bytes@.len() == right_bytes@.len(),
            forall|j: int| 0 <= j < i ==> left_bytes@[j] == right_bytes@[j],
    {
        if left_bytes[i] != right_bytes[i] {
            return false;
        }
    }
    assert(left_bytes@ =~= right_bytes@);
    true
}

/// Joins the items with the separator between neighbours.
pub fn join(items: &[&str], separator: &str) -> (whole: String)
    ensures
        whole@ == joined(slices(items@), separator@),
{
    let mut whole = String::new();
    assert(slices(items@).take(0) =~= Seq::empty());
    for i in 0..items.len()
        invariant
            whole@ == joined(slices(items@).take(i as int), separator@),
    {
        assert(slices(items@).take(i + 1).drop_last() =~= slices(items@).take(i as int));
        if i > 0 {
            whole.append(separator);
        }
        whole.append(items[i]);
        assert(i == 0 ==> whole@ =~= items@[0]@);
    }
    assert(slices(items@).take(items@.len() as int) =~= slices(items@));
    whole
}

/// The log spelling of a boolean.
pub fn show_bool(value: bool) -> (shown: &'static str)
    ensures
        shown@ == bool_text(value),
{
    if value {
        "true"
    } else {
        "false"
    }
}

/// The head with the tail behind it.
pub fn line(head: &str, tail: &str) -> (whole: String)
    ensures
        whole@ == head@ + tail@,
{
    let mut whole = head.to_owned();
    whole.append(tail);
    whole
}

/// Borrows every string of a list.
pub fn borrowed(names: &Vec<String>) -> (views: Vec<&str>)
    ensures
        slices(views@) == texts(names@),
{
    let mut views: Vec<&str> = Vec::new();
    for i in 0..names.len()
        invariant
            views@.len() == i,
            forall|j: int| 0 <= j < i ==> (#[trigger] views@[j])@ == names@[j]@,
    {
        views.push(names[i].as_str());
    }
    assert(slices(views@) =~= texts(names@));
    views
}

/// Whether the text ends with the given one.
pub open spec fn ends_with(whole: Seq<char>, ending: Seq<char>) -> bool {
    ending.len() <= whole.len() && whole.skip(whole.len() - ending.len()) == ending
}

/// The views of a list keep its length and each of its strings, in place.
pub proof fn views_keep_every_string(lines: Seq<String>, names: Seq<&str>)
    ensures
        texts(lines).len() == lines.len(),
        forall|i: int| 0 <= i < lines.len() ==> #[trigger] texts(lines)[i] == lines[i]@,
        slices(names).len() == names.len(),
        forall|i: int| 0 <= i < names.len() ==> #[trigger] slices(names)[i] == names[i]@,
{
}

/// The view of an outcome keeps whether it succeeded, and its message.
pub proof fn views_keep_every_outcome(error: String)
    ensures
        outcome(Ok(())) == Ok::<(), Seq<char>>(()),
        outcome(Err(error)) == Err::<(), Seq<char>>(error@),
{
}

/// Joining nothing gives nothing, joining one item gives it back, and every further item adds a
/// separator and itself at the end.
pub proof fn joining_appends_item_by_item(
    items: Seq<Seq<char>>,
    item: Seq<char>,
    separator: Seq<char>,
)
    ensures
        joined(Seq::empty(), separator) == Seq::<char>::empty(),
        joined(seq![item], separator) == item,
        items.len() > 0 ==> joined(items.push(item), separator) == joined(items, separator)
            + separator + item,
{
    assert(items.push(item).drop_last() =~= items);
}

/// The two booleans are written as the words for them, and so can be told apart.
pub proof fn booleans_are_written_out()
    ensures
        bool_text(true) == "true"@,
        bool_text(false) == "false"@,
        bool_text(true) != bool_text(false),
{
    reveal_strlit("true");
    reveal_strlit("false");
}

} // verus!
