//! Texts as sequences of characters: finding, splitting and joining.
use vstd::prelude::*;
use vstd::string::*;

verus! {

/// The characters of a text.
pub fn chars_of(text: &str) -> (res: Vec<char>)
    ensures
        res@ == text@,
{
    let mut chars: Vec<char> = Vec::new();
    for c in iter: text.chars()
        invariant
            iter.seq() == text@,
            chars@ == text@.take(iter.index()),
    {
        chars.push(c);
    }
    assert(text@.take(text@.len() as int) =~= text@);
    chars
}

/// The place of the first `c` in a text, or its length.
pub open spec fn first_place(text: Seq<char>, c: char) -> nat
    decreases text.len(),
{
    if text.len() == 0 || text[0] == c {
        0
    } else {
        1 + first_place(text.skip(1), c)
    }
}

/// The first place is where the character is found and nowhere before.
pub proof fn lemma_first_place(text: Seq<char>, c: char)
    ensures
        first_place(text, c) <= text.len(),
        first_place(text, c) < text.len() ==> text[first_place(text, c) as int] == c,
        forall|i: int| 0 <= i < first_place(text, c) ==> #[trigger] text[i] != c,
    decreases text.len(),
{
    if text.len() > 0 && text[0] != c {
        let rest = text.skip(1);
        lemma_first_place(rest, c);
        assert forall|i: int| 0 <= i < first_place(text, c) implies #[trigger] text[i] != c by {
            if i > 0 {
                assert(rest[i - 1] == text[i]);
            }
        }
    }
}

/// A place where the character is found, and nowhere before, is the first place.
pub proof fn lemma_is_first_place(text: Seq<char>, c: char, n: nat)
    requires
        n <= text.len(),
        n < text.len() ==> text[n as int] == c,
        forall|i: int| 0 <= i < n ==> #[trigger] text[i] != c,
    ensures
        first_place(text, c) == n,
{
    lemma_first_place(text, c);
    let found = first_place(text, c);
    if found < n {
        assert(text[found as int] != c);
    } else if n < found {
        assert(text[n as int] != c);
    }
}

/// The place of the first `c` from `start` on, or the length of the text.
pub fn find_char(chars: &Vec<char>, start: usize, c: char) -> (res: usize)
    requires
        start <= chars@.len(),
    ensures
        start <= res <= chars@.len(),
        res - start == first_place(chars@.skip(start as int), c),
{
    let ghost rest = chars@.skip(start as int);
    let mut i: usize = start;
    while i < chars.len()
        invariant
            start <= i <= chars@.len(),
            rest == chars@.skip(start as int),
            forall|j: int| 0 <= j < i - start ==> #[trigger] rest[j] != c,
        decreases chars@.len() - i,
    {
        assert(rest[i - start] == chars@[i as int]);
        if chars[i] == c {
            proof {
                lemma_is_first_place(rest, c, (i - start) as nat);
            }
            return i;
        }
        i += 1;
    }
    proof {
        lemma_is_first_place(rest, c, (i - start) as nat);
    }
    i
}

/// The texts one behind the other, with `separator` between them.
pub open spec fn joined(parts: Seq<Seq<char>>, separator: Seq<char>) -> Seq<char>
    decreases parts.len(),
{
    if parts.len() == 0 {
        Seq::empty()
    } else if parts.len() == 1 {
        parts[0]
    } else {
        joined(parts.drop_last(), separator) + separator + parts.last()
    }
}

/// The texts one behind the other, with `separator` between them.
pub fn join(parts: &Vec<String>, separator: &str) -> (res: String)
    ensures
        res@ == joined(parts@.map_values(|s: String| s@), separator@),
{
    let ghost texts = parts@.map_values(|s: String| s@);
    let mut res = String::new();
    let mut i: usize = 0;
    while i < parts.len()
        invariant
            i <= parts@.len(),
            texts == parts@.map_values(|s: String| s@),
            res@ == joined(texts.take(i as int), separator@),
        decreases parts@.len() - i,
    {
        assert(texts.take(i + 1).drop_last() =~= texts.take(i as int));
        if i > 0 {
            res.append(separator);
        }
        res.append(parts[i].as_str());
        assert(res@ =~= joined(texts.take(i + 1), separator@));
        i += 1;
    }
    assert(texts.take(i as int) =~= texts);
    res
}

/// Joining puts the separator between two texts that follow each other, and nowhere else.
pub proof fn one_more_text_is_joined(parts: Seq<Seq<char>>, last: Seq<char>, separator: Seq<char>)
    ensures
        joined(seq![], separator) == Seq::<char>::empty(),
        joined(seq![last], separator) == last,
        parts.len() > 0 ==> joined(parts + seq![last], separator) == joined(parts, separator)
            + separator + last,
{
    assert((parts + seq![last]).drop_last() =~= parts);
}

/// What is found is the character, at no place before the start, and there is none between the
/// start and the place that is found.
pub proof fn found_character_is_the_first(chars: Vec<char>, start: usize, c: char, res: usize)
    requires
        start <= chars@.len(),
        call_ensures(find_char, (&chars, start, c), res),
    ensures
        start <= res <= chars@.len(),
        res < chars@.len() ==> chars@[res as int] == c,
        forall|i: int| start <= i < res ==> #[trigger] chars@[i] != c,
{
    let rest = chars@.skip(start as int);
    lemma_first_place(rest, c);
    assert forall|i: int| start <= i < res implies #[trigger] chars@[i] != c by {
        assert(rest[i - start] == chars@[i]);
    }
    if res < chars@.len() {
        assert(rest[res - start] == chars@[res as int]);
    }
}

/// One more text is joined to the others with the separator before it, and the first without one.
pub proof fn join_grows_by_separator_and_text(
    parts: Vec<String>,
    more: Vec<String>,
    separator: &str,
    res: String,
    longer: String,
)
    requires
        call_ensures(join, (&parts, separator), res),
        call_ensures(join, (&more, separator), longer),
        more@.len() == parts@.len() + 1,
        forall|i: int| 0 <= i < parts@.len() ==> (#[trigger] more@[i])@ == parts@[i]@,
    ensures
        parts@.len() == 0 ==> res@.len() == 0 && longer@ == more@.last()@,
        parts@.len() > 0 ==> longer@ == res@ + separator@ + more@.last()@,
{
    let few = parts@.map_values(|s: String| s@);
    let all = more@.map_values(|s: String| s@);
    assert(all.drop_last() =~= few);
    assert(all.last() == more@.last()@);
}

/// The characters of a text are those of the text, one by one.
pub proof fn characters_are_those_of_the_text(text: &str, chars: Vec<char>, i: int)
    requires
        call_ensures(chars_of, (text,), chars),
        0 <= i < text@.len(),
    ensures
        chars@.len() == text@.len(),
        chars@[i] == text@[i],
{
}

} // verus!
