//! What a text with an interpolation in it can turn out to be.

use vstd::prelude::*;
use vstd::utf8::char_u32_cast;

use crate::json::Document;
use crate::shape::dynamic_wdl::{
    may_be_duration, may_be_finite_number, may_be_integer, may_be_positive_integer,
};
use crate::wdl::syntax_laws::{has_no_mark, is_unquoted};
use crate::wdl::value::{
    after, all_in_class, can_produce, classified, filled, in_class, interpolation_end, led_by,
    literal_pieces, may_have_length, may_match, plain_codes, plain_segments, total_chars,
    CharClass, Classified,
};

verus! {

/// A text with one interpolation in it.
pub open spec fn around(front: Seq<char>, body: Seq<char>, back: Seq<char>) -> Seq<char> {
    front + seq!['@', '{'] + body + seq!['}'] + back
}

/// The inside of an interpolation without quotes and braces.
pub open spec fn is_simple_body(body: Seq<char>) -> bool {
    is_unquoted(body) && forall|i: int| 0 <= i < body.len() ==> #[trigger] body[i] != '}'
}

proof fn lemma_led(front: Seq<char>, rest: Seq<char>)
    requires
        has_no_mark(front),
        literal_pieces(rest) is Some ==> (literal_pieces(rest)->Some_0).len() > 0,
    ensures
        literal_pieces(front + rest) == led_by(front, literal_pieces(rest)),
    decreases front.len(),
{
    if front.len() == 0 {
        assert(front + rest =~= rest);
        if let Some(list) = literal_pieces(rest) {
            assert(front + list[0] =~= list[0]);
            assert(list.update(0, front + list[0]) =~= list);
        }
    } else {
        let tail = front.skip(1);
        let text = front + rest;
        assert(text[0] == front[0]);
        assert(text.skip(1) =~= tail + rest);
        assert forall|i: int| 0 <= i < tail.len() implies #[trigger] tail[i] != '@' by {
            assert(tail[i] == front[i + 1]);
        }
        lemma_led(tail, rest);
        if let Some(list) = literal_pieces(rest) {
            let one = list.update(0, tail + list[0]);
            assert(one[0] == tail + list[0]);
            assert(seq![front[0]] + (tail + list[0]) =~= front + list[0]);
            assert(one.update(0, seq![front[0]] + one[0]) =~= list.update(0, front + list[0]));
        }
    }
}

proof fn lemma_unmarked_pieces(text: Seq<char>)
    requires
        has_no_mark(text),
    ensures
        literal_pieces(text) == Some(seq![text]),
{
    let nothing = Seq::<char>::empty();
    assert(literal_pieces(nothing) == Some(seq![nothing]));
    lemma_led(text, nothing);
    assert(text + nothing =~= text);
    assert(seq![nothing].update(0, text + nothing) =~= seq![text]);
}

proof fn lemma_body_end(text: Seq<char>, at: int, end: int)
    requires
        0 <= at <= end <= text.len(),
        forall|k: int| at <= k < end ==> #[trigger] text[k] != '\'' && text[k] != '}',
        end < text.len() ==> text[end] == '}',
    ensures
        interpolation_end(text, at, false) == (if end < text.len() {
            Some(end)
        } else {
            None
        }),
    decreases end - at,
{
    if at < end {
        lemma_body_end(text, at + 1, end);
    }
}

/// A text with an interpolation is told by what stands around it, one that does
/// not close it by nothing, one without any by itself, and one that begins with an
/// expression by nothing.
pub proof fn law_texts_are_told_by_what_is_literal(
    front: Seq<char>,
    body: Seq<char>,
    back: Seq<char>,
    c: char,
)
    requires
        has_no_mark(front),
        is_simple_body(body),
        has_no_mark(back),
        c != '@',
        c != '{',
    ensures
        classified(around(front, body, back)) == Classified::Template(seq![front, back]),
        classified(front + seq!['@', '{'] + body) is MalformedTemplate,
        classified(front) == Classified::Literal(front),
        classified(seq!['@', c] + back) is FullExpression,
{
    let text = around(front, body, back);
    let rest = seq!['@', '{'] + body + seq!['}'] + back;
    let end = 2 + body.len() as int;
    assert(text =~= front + rest);
    assert(rest[0] == '@' && rest[1] == '{' && rest[end] == '}');
    assert forall|k: int| 2 <= k < end implies #[trigger] rest[k] != '\'' && rest[k] != '}' by {
        assert(rest[k] == body[k - 2]);
    }
    lemma_body_end(rest, 2, end);
    assert(rest.skip(end + 1) =~= back);
    lemma_unmarked_pieces(back);
    let nothing = Seq::<char>::empty();
    assert(literal_pieces(rest) == after(seq![nothing], literal_pieces(back)));
    assert(seq![nothing] + seq![back] =~= seq![nothing, back]);
    lemma_led(front, rest);
    assert(front + nothing =~= front);
    assert(seq![nothing, back].update(0, front + nothing) =~= seq![front, back]);
    let open = seq!['@', '{'] + body;
    assert(front + seq!['@', '{'] + body =~= front + open);
    assert(open[0] == '@' && open[1] == '{');
    assert forall|k: int| 2 <= k < open.len() implies #[trigger] open[k] != '\'' && open[k]
        != '}' by {
        assert(open[k] == body[k - 2]);
    }
    lemma_body_end(open, 2, open.len() as int);
    assert(literal_pieces(open) is None);
    lemma_led(front, open);
    lemma_unmarked_pieces(front);
    if front.len() > 0 {
        assert(text[0] == front[0]);
        assert((front + open)[0] == front[0]);
    } else {
        assert(text =~= rest);
        assert(front + open =~= open);
    }
    let whole = seq!['@', c] + back;
    assert(whole[0] == '@' && whole[1] == c);
}

/// A character of one of four kinds of numbers.
pub open spec fn is_of(text: Seq<char>, marks: Seq<char>) -> bool {
    forall|i: int|
        0 <= i < text.len() ==> ('0' <= #[trigger] text[i] <= '9') || marks.contains(text[i])
}

proof fn lemma_class(front: Seq<char>, back: Seq<char>, class: CharClass, marks: Seq<char>)
    requires
        forall|c: char| #[trigger] in_class(class, c) == (('0' <= c <= '9') || marks.contains(c)),
    ensures
        all_in_class(seq![front, back], class) == (is_of(front, marks) && is_of(back, marks)),
{
    let list = seq![front, back];
    assert(list[0] == front && list[1] == back);
    if all_in_class(list, class) {
        assert forall|i: int| 0 <= i < front.len() implies ('0' <= #[trigger] front[i] <= '9')
            || marks.contains(front[i]) by {
            assert(in_class(class, list[0][i]));
        }
        assert forall|i: int| 0 <= i < back.len() implies ('0' <= #[trigger] back[i] <= '9')
            || marks.contains(back[i]) by {
            assert(in_class(class, list[1][i]));
        }
    }
    if is_of(front, marks) && is_of(back, marks) {
        assert forall|i: int, j: int|
            0 <= i < list.len() && 0 <= j < list[i].len() implies in_class(
            class,
            #[trigger] list[i][j],
        ) by {
            if i == 0 {
                assert(list[i][j] == front[j]);
            } else {
                assert(list[i][j] == back[j]);
            }
        }
    }
}

/// A text with an interpolation may turn out to be a number or a duration exactly
/// where what is literal in it can belong to one.
pub proof fn law_literal_parts_decide_on_numbers(
    front: Seq<char>,
    body: Seq<char>,
    back: Seq<char>,
    file: &Document,
)
    requires
        has_no_mark(front),
        is_simple_body(body),
        has_no_mark(back),
    ensures
        may_be_positive_integer(around(front, body, back)) == (is_of(front, seq!['+']) && is_of(
            back,
            seq!['+'],
        )),
        may_be_integer(around(front, body, back)) == (is_of(front, seq!['+', '-']) && is_of(
            back,
            seq!['+', '-'],
        )),
        may_be_finite_number(file, around(front, body, back)) == (is_of(
            front,
            seq!['+', '-', '.', 'e', 'E'],
        ) && is_of(back, seq!['+', '-', '.', 'e', 'E'])),
        may_be_duration(around(front, body, back)) == {
            let marks = seq!['P', 'T', 'Y', 'M', 'W', 'D', 'H', 'S', '.', ','];
            &&& is_of(front, marks)
            &&& is_of(back, marks)
            &&& front.len() > 0 ==> front[0] == 'P'
            &&& back.len() > 0 ==> seq!['Y', 'M', 'W', 'D', 'H', 'S'].contains(back.last())
        },
{
    law_texts_are_told_by_what_is_literal(front, body, back, ' ');
    let list = seq![front, back];
    assert(list.first() == front && list.last() == back);
    let one = seq!['+'];
    assert forall|c: char| #[trigger] in_class(CharClass::Digits, c) == (('0' <= c <= '9')
        || one.contains(c)) by {
        assert(one[0] == '+');
    }
    lemma_class(front, back, CharClass::Digits, one);
    let two = seq!['+', '-'];
    assert forall|c: char| #[trigger] in_class(CharClass::SignedDigits, c) == (('0' <= c <= '9')
        || two.contains(c)) by {
        assert(two[0] == '+' && two[1] == '-');
    }
    lemma_class(front, back, CharClass::SignedDigits, two);
    let five = seq!['+', '-', '.', 'e', 'E'];
    assert forall|c: char| #[trigger] in_class(CharClass::NumberParts, c) == (('0' <= c <= '9')
        || five.contains(c)) by {
        assert(five[0] == '+' && five[1] == '-' && five[2] == '.' && five[3] == 'e' && five[4]
            == 'E');
    }
    lemma_class(front, back, CharClass::NumberParts, five);
    let ten = seq!['P', 'T', 'Y', 'M', 'W', 'D', 'H', 'S', '.', ','];
    assert forall|c: char| #[trigger] in_class(CharClass::DurationParts, c) == (('0' <= c <= '9')
        || ten.contains(c)) by {
        assert(ten[0] == 'P' && ten[1] == 'T' && ten[2] == 'Y' && ten[3] == 'M' && ten[4] == 'W'
            && ten[5] == 'D' && ten[6] == 'H' && ten[7] == 'S' && ten[8] == '.' && ten[9] == ',');
    }
    lemma_class(front, back, CharClass::DurationParts, ten);
    let six = seq!['Y', 'M', 'W', 'D', 'H', 'S'];
    assert(six[0] == 'Y' && six[1] == 'M' && six[2] == 'W' && six[3] == 'D' && six[4] == 'H'
        && six[5] == 'S');
}

/// A text with an interpolation may have a length exactly where what is literal in
/// it is no longer.
pub proof fn law_literal_parts_decide_on_lengths(
    front: Seq<char>,
    body: Seq<char>,
    back: Seq<char>,
    n: int,
)
    requires
        has_no_mark(front),
        is_simple_body(body),
        has_no_mark(back),
    ensures
        may_have_length(classified(around(front, body, back)), n) == (front.len() + back.len()
            <= n),
        may_have_length(classified(front), n) == (front.len() == n),
{
    law_texts_are_told_by_what_is_literal(front, body, back, ' ');
    let list = seq![front, back];
    assert(list.drop_last() =~= seq![front]);
    assert(seq![front].drop_last() =~= Seq::<Seq<char>>::empty());
    assert(total_chars(Seq::<Seq<char>>::empty()) == 0);
    assert(total_chars(seq![front]) == front.len());
}

/// A text with an interpolation may be one of some words exactly where a word begins
/// and ends with what is literal in it.
pub proof fn law_literal_parts_decide_on_words(
    front: Seq<char>,
    body: Seq<char>,
    back: Seq<char>,
    allowed: Seq<Seq<char>>,
)
    requires
        has_no_mark(front),
        is_simple_body(body),
        has_no_mark(back),
    ensures
        may_match(classified(around(front, body, back)), allowed) == exists|i: int|
            0 <= i < allowed.len() && is_framed(#[trigger] allowed[i], front, back),
        may_match(classified(front), allowed) == allowed.contains(front),
{
    law_texts_are_told_by_what_is_literal(front, body, back, ' ');
    let list = seq![front, back];
    assert forall|i: int| 0 <= i < allowed.len() implies can_produce(
        plain_segments(list),
        plain_codes(#[trigger] allowed[i]),
    ) == is_framed(allowed[i], front, back) by {
        lemma_framed(allowed[i], front, back);
    }
    if may_match(classified(around(front, body, back)), allowed) {
        let i = choose|i: int|
            0 <= i < allowed.len() && can_produce(
                plain_segments(list),
                plain_codes(#[trigger] allowed[i]),
            );
        assert(is_framed(allowed[i], front, back));
    }
    if exists|i: int| 0 <= i < allowed.len() && is_framed(#[trigger] allowed[i], front, back) {
        let i = choose|i: int|
            0 <= i < allowed.len() && is_framed(#[trigger] allowed[i], front, back);
        assert(can_produce(plain_segments(list), plain_codes(allowed[i])));
    }
}

/// A word begins and ends with two texts that do not overlap in it.
pub open spec fn is_framed(word: Seq<char>, front: Seq<char>, back: Seq<char>) -> bool {
    &&& front.len() + back.len() <= word.len()
    &&& word.take(front.len() as int) == front
    &&& word.skip(word.len() - back.len()) == back
}

proof fn lemma_framed(word: Seq<char>, front: Seq<char>, back: Seq<char>)
    ensures
        can_produce(plain_segments(seq![front, back]), plain_codes(word)) == is_framed(
            word,
            front,
            back,
        ),
{
    let list = plain_segments(seq![front, back]);
    let f = plain_codes(front);
    let b = plain_codes(back);
    let w = plain_codes(word);
    assert(list.len() == 2 && list[0] == f && list[1] == b);
    assert(list.drop_last() =~= seq![f]);
    assert(list.last() == b);
    if is_framed(word, front, back) {
        let middle = w.subrange(f.len() as int, w.len() - b.len());
        let fills = seq![middle];
        assert forall|i: int| 0 <= i < f.len() implies w[i] == #[trigger] f[i] by {
            assert(word.take(front.len() as int)[i] == front[i]);
        }
        assert forall|i: int| 0 <= i < b.len() implies w[w.len() - b.len() + i] == #[trigger] b[i] by {
            assert(word.skip(word.len() - back.len())[i] == back[i]);
        }
        assert(filled(list, fills) == filled(list.drop_last(), fills.drop_last()) + fills.last()
            + list.last());
        assert(filled(seq![f], fills.drop_last()) == f);
        assert(f + middle + b =~= w);
        assert(filled(list, fills) == w);
    }
    if can_produce(list, w) {
        let fills = choose|fills: Seq<Seq<u32>>|
            fills.len() + 1 == list.len() && #[trigger] filled(list, fills) == w;
        assert(filled(list, fills) == filled(list.drop_last(), fills.drop_last()) + fills.last()
            + list.last());
        assert(filled(seq![f], fills.drop_last()) == f);
        let middle = fills.last();
        assert(w == f + middle + b);
        assert(word.len() == w.len());
        assert forall|i: int| 0 <= i < front.len() implies #[trigger] word[i] == front[i] by {
            assert(w[i] == f[i]);
            char_u32_cast(word[i], w[i]);
            char_u32_cast(front[i], w[i]);
        }
        assert forall|i: int| 0 <= i < back.len() implies word[word.len() - back.len() + i]
            == #[trigger] back[i] by {
            let k = word.len() - back.len() + i;
            assert(w[k] == b[i]);
            char_u32_cast(word[k], w[k]);
            char_u32_cast(back[i], w[k]);
        }
        assert(word.take(front.len() as int) =~= front);
        assert(word.skip(word.len() - back.len()) =~= back);
    }
}

} // verus!
