//! Comparing and searching text.

use vstd::prelude::*;

verus! {

/// The texts of a sequence of strings.
pub open spec fn texts(strings: Seq<String>) -> Seq<Seq<char>> {
    strings.map_values(|s: String| s@)
}

/// Whether every text of `wanted` is among `present`.
pub open spec fn covers(present: Seq<Seq<char>>, wanted: Seq<Seq<char>>) -> bool {
    forall|i: int| 0 <= i < wanted.len() ==> #[trigger] present.contains(wanted[i])
}

/// The texts of `candidates` that are among `present`, in the order of `candidates`.
pub open spec fn common(candidates: Seq<Seq<char>>, present: Seq<Seq<char>>) -> Seq<Seq<char>> {
    candidates.filter(|text: Seq<char>| present.contains(text))
}

/// Whether two string slices hold the same characters.
pub fn same_text(a: &str, b: &str) -> (same: bool)
    ensures
        same == (a@ == b@),
{
    let left: &[u8] = a.as_bytes();
    let right: &[u8] = b.as_bytes();
    if left.len() != right.len() {
        return false;
    }
    let mut i: usize = 0;
    while i < left.len()
        invariant
            i <= left@.len(),
            left@.len() == right@.len(),
            left@ == vstd::utf8::encode_utf8(a@),
            right@ == vstd::utf8::encode_utf8(b@),
            left@.take(i as int) =~= right@.take(i as int),
        decreases left@.len() - i,
    {
        if left[i] != right[i] {
            assert(left@[i as int] != right@[i as int]);
            return false;
        }
        assert(left@.take(i + 1) =~= left@.take(i as int).push(left@[i as int]));
        assert(right@.take(i + 1) =~= right@.take(i as int).push(right@[i as int]));
        i += 1;
    }
    proof {
        assert(left@ =~= left@.take(i as int));
        assert(right@ =~= right@.take(i as int));
        vstd::utf8::encode_utf8_decode_utf8(a@);
        vstd::utf8::encode_utf8_decode_utf8(b@);
    }
    true
}

/// Whether `text` is among `strings`.
pub fn contains_text(strings: &Vec<String>, text: &String) -> (found: bool)
    ensures
        found == texts(strings@).contains(text@),
        found <==> exists|k: int| 0 <= k < strings@.len() && #[trigger] strings@[k]@ == text@,
{
    let mut i: usize = 0;
    while i < strings.len()
        invariant
            i <= strings@.len(),
            forall|j: int| 0 <= j < i ==> texts(strings@)[j] != text@,
            forall|j: int| 0 <= j < i ==> #[trigger] strings@[j]@ != text@,
        decreases strings@.len() - i,
    {
        if strings[i] == *text {
            assert(texts(strings@)[i as int] == text@);
            assert(strings@[i as int]@ == text@);
            return true;
        }
        i += 1;
    }
    false
}

/// Whether every string of `wanted` is among `present`.
pub fn contains_all(present: &Vec<String>, wanted: &Vec<String>) -> (all: bool)
    ensures
        all == covers(texts(present@), texts(wanted@)),
{
    let mut i: usize = 0;
    while i < wanted.len()
        invariant
            i <= wanted@.len(),
            forall|j: int|
                0 <= j < i ==> #[trigger] texts(present@).contains(texts(wanted@)[j]),
        decreases wanted@.len() - i,
    {
        if !contains_text(present, &wanted[i]) {
            assert(!texts(present@).contains(texts(wanted@)[i as int]));
            return false;
        }
        i += 1;
    }
    true
}

/// The strings of `candidates` that are among `present`, in the order of `candidates`.
pub fn common_strings(candidates: &Vec<String>, present: &Vec<String>) -> (found: Vec<String>)
    ensures
        texts(found@) == common(texts(candidates@), texts(present@)),
{
    let mut found: Vec<String> = Vec::new();
    let mut i: usize = 0;
    proof {
        assert(texts(candidates@).take(0) =~= Seq::<Seq<char>>::empty());
        reveal(Seq::filter);
        assert(texts(found@) =~= common(texts(candidates@).take(0), texts(present@)));
    }
    while i < candidates.len()
        invariant
            i <= candidates@.len(),
            texts(found@) == common(texts(candidates@).take(i as int), texts(present@)),
        decreases candidates@.len() - i,
    {
        let ghost before = texts(candidates@).take(i as int);
        let ghost among = |text: Seq<char>| texts(present@).contains(text);
        proof {
            before.lemma_filter_push(candidates@[i as int]@, among);
            assert(texts(candidates@).take(i + 1) =~= before.push(candidates@[i as int]@));
        }
        if contains_text(present, &candidates[i]) {
            let ghost earlier = found@;
            found.push(candidates[i].clone());
            assert(texts(found@) =~= texts(earlier).push(candidates@[i as int]@));
        }
        i += 1;
    }
    assert(texts(candidates@).take(i as int) =~= texts(candidates@));
    found
}

/// The texts of strings are those of each of them, one for one and in their order.
pub proof fn law_texts_one_for_one(strings: Seq<String>)
    ensures
        texts(strings).len() == strings.len(),
        forall|i: int| 0 <= i < strings.len() ==> #[trigger] texts(strings)[i] == strings[i]@,
{
}

/// Texts are covered if and only if each of them, whichever it is, is somewhere among those
/// that are present.
pub proof fn law_covered_means_each_is_present(present: Seq<Seq<char>>, wanted: Seq<Seq<char>>)
    ensures
        covers(present, wanted) <==> forall|i: int|
            0 <= i < wanted.len() ==> present.contains(#[trigger] wanted[i]),
{
}

/// What two lists have in common with a third is found one list after the other.
pub proof fn law_common_of_parts(
    first: Seq<Seq<char>>,
    second: Seq<Seq<char>>,
    present: Seq<Seq<char>>,
)
    ensures
        common(first + second, present) == common(first, present) + common(second, present),
{
    Seq::filter_distributes_over_add(
        first,
        second,
        |text: Seq<char>| present.contains(text),
    );
}

/// A single text is in common if and only if it is present.
pub proof fn law_common_of_one(text: Seq<char>, present: Seq<Seq<char>>)
    ensures
        present.contains(text) ==> common(seq![text], present) == seq![text],
        !present.contains(text) ==> common(seq![text], present) == Seq::<Seq<char>>::empty(),
{
    let among = |t: Seq<char>| present.contains(t);
    reveal(Seq::filter);
    assert(seq![text].drop_last() =~= Seq::<Seq<char>>::empty());
    assert(Seq::<Seq<char>>::empty().filter(among) =~= Seq::<Seq<char>>::empty());
    Seq::<Seq<char>>::empty().lemma_filter_push(text, among);
    assert(Seq::<Seq<char>>::empty().push(text) =~= seq![text]);
}

/// What is in common is on both lists, and what is on both lists is in common.
pub proof fn law_common_is_on_both_lists(
    candidates: Seq<Seq<char>>,
    present: Seq<Seq<char>>,
    text: Seq<char>,
)
    ensures
        common(candidates, present).contains(text) <==> candidates.contains(text)
            && present.contains(text),
    decreases candidates.len(),
{
    if candidates.len() == 0 {
        reveal(Seq::filter);
    } else {
        let front = candidates.drop_last();
        let last = candidates.last();
        law_common_is_on_both_lists(front, present, text);
        front.lemma_filter_push(last, |t: Seq<char>| present.contains(t));
        assert(candidates =~= front.push(last));
        let found = common(front, present);
        assert(found.push(last)[found.len() as int] == last);
        assert(forall|i: int| 0 <= i < found.len() ==> found.push(last)[i] == #[trigger] found[i]);
        assert(forall|i: int|
            0 <= i < front.len() ==> front.push(last)[i] == #[trigger] front[i]);
        assert(candidates[candidates.len() - 1] == last);
    }
}

} // verus!
