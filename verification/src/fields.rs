//! Comma-separated lists: taking a string apart at its commas, and
//! putting fields together again.

use vstd::prelude::*;
use vstd::string::*;

verus! {

/// The place of the first comma in `s`, or the length of `s` where it
/// holds none.
pub open spec fn first_comma(s: Seq<char>) -> int
    decreases s.len(),
{
    if s.len() == 0 || s[0] == ',' {
        0
    } else {
        1 + first_comma(s.drop_first())
    }
}

/// The fields of a comma-separated list: what stands before the first
/// comma, between each two commas, and after the last one. A string
/// without a comma is one field, the empty string too, and a comma at
/// either end has an empty field beside it.
pub open spec fn comma_fields(s: Seq<char>) -> Seq<Seq<char>>
    decreases s.len(),
{
    let cut = first_comma(s);
    if 0 <= cut < s.len() {
        seq![s.take(cut)] + comma_fields(s.skip(cut + 1))
    } else {
        seq![s]
    }
}

/// The fields written one after another with a comma between each two.
pub open spec fn comma_joined(fields: Seq<Seq<char>>) -> Seq<char>
    decreases fields.len(),
{
    if fields.len() == 0 {
        Seq::empty()
    } else if fields.len() == 1 {
        fields[0]
    } else {
        fields[0] + seq![','] + comma_joined(fields.drop_first())
    }
}

/// What each string of a list holds.
pub open spec fn texts(items: Seq<String>) -> Seq<Seq<char>> {
    Seq::new(items.len(), |i: int| items[i]@)
}

/// `first_comma` is the one place with a comma at it, or the end, and
/// no comma before it.
pub proof fn lemma_first_comma(s: Seq<char>, cut: int)
    requires
        0 <= cut <= s.len(),
        forall|j: int| 0 <= j < cut ==> s[j] != ',',
        cut < s.len() ==> s[cut] == ',',
    ensures
        first_comma(s) == cut,
    decreases s.len(),
{
    if cut > 0 {
        let rest = s.drop_first();
        assert forall|j: int| 0 <= j < cut - 1 implies rest[j] != ',' by {
            assert(rest[j] == s[j + 1]);
        }
        lemma_first_comma(rest, cut - 1);
    }
}

/// A list has at least one field.
pub proof fn lemma_fields_not_empty(s: Seq<char>)
    ensures
        comma_fields(s).len() >= 1,
{
}

/// A list of fields that hold no comma, once joined, comes apart into
/// the same fields.
pub proof fn lemma_fields_of_joined(fields: Seq<Seq<char>>)
    requires
        fields.len() > 0,
        forall|i: int| 0 <= i < fields.len() ==> !(#[trigger] fields[i]).contains(','),
    ensures
        comma_fields(comma_joined(fields)) == fields,
    decreases fields.len(),
{
    let head = fields[0];
    let whole = comma_joined(fields);
    assert forall|j: int| 0 <= j < head.len() implies head[j] != ',' by {
        if head[j] == ',' {
            assert(head.contains(','));
        }
    }
    if fields.len() == 1 {
        lemma_first_comma(whole, whole.len() as int);
        assert(comma_fields(whole) =~= fields);
    } else {
        let rest = fields.drop_first();
        assert forall|i: int| 0 <= i < rest.len() implies !(#[trigger] rest[i]).contains(
            ',',
        ) by {
            assert(rest[i] == fields[i + 1]);
        }
        lemma_fields_of_joined(rest);
        let cut = head.len() as int;
        assert(whole == head + seq![','] + comma_joined(rest));
        lemma_first_comma(whole, cut);
        assert(whole.take(cut) =~= head);
        assert(whole.skip(cut + 1) =~= comma_joined(rest));
        assert(comma_fields(whole) =~= fields);
    }
}

/// The characters of a string, one by one.
pub fn chars_of(s: &str) -> (chars: Vec<char>)
    ensures
        chars@ == s@,
{
    let mut chars: Vec<char> = Vec::new();
    for c in it: s.chars()
        invariant
            it.seq() == s@,
            chars@ == s@.take(it.index()),
    {
        chars.push(c);
        assert(chars@ =~= s@.take(it.index() + 1));
    }
    assert(s@.take(s@.len() as int) =~= s@);
    chars
}

/// Takes a comma-separated list apart.
pub fn split_commas(s: &str) -> (fields: Vec<String>)
    ensures
        texts(fields@) == comma_fields(s@),
{
    let chars = chars_of(s);
    let n = chars.len();
    let mut fields: Vec<String> = Vec::new();
    let mut start: usize = 0;
    let mut i: usize = 0;
    assert(s@.skip(0) =~= s@);
    assert(texts(fields@) + comma_fields(s@) =~= comma_fields(s@));
    while i < n
        invariant
            chars@ == s@,
            n == s@.len(),
            start <= i <= n,
            forall|j: int| start <= j < i ==> s@[j] != ',',
            comma_fields(s@) == texts(fields@) + comma_fields(s@.skip(start as int)),
        decreases n - i,
    {
        if chars[i] == ',' {
            let field = s.substring_char(start, i).to_owned();
            proof {
                let tail = s@.skip(start as int);
                let cut = i - start;
                lemma_first_comma(tail, cut);
                assert(tail.take(cut) =~= field@);
                assert(tail.skip(cut + 1) =~= s@.skip(i + 1));
                assert(texts(fields@.push(field)) =~= texts(fields@) + seq![field@]);
            }
            fields.push(field);
            start = i + 1;
        }
        i += 1;
    }
    let last = s.substring_char(start, n).to_owned();
    proof {
        let tail = s@.skip(start as int);
        lemma_first_comma(tail, tail.len() as int);
        assert(tail =~= last@);
        assert(texts(fields@.push(last)) =~= texts(fields@) + seq![last@]);
    }
    fields.push(last);
    fields
}

} // verus!
