//! Structural classification of a JSON string as a workflow expression value.
//!
//! Shape rules need to know how much of a string is statically known. This
//! module folds a raw string into one of four cases and exposes the literal
//! fragments that survive dynamic interpolation, without ever evaluating the
//! expression.

use vstd::prelude::*;

use crate::text::{
    chars_of, folded, in_list, in_list_ignoring_case, is_digit, names, one_of,
    one_of_ignoring_case, string_of, texts,
};

verus! {

/// Classification of a JSON string with respect to dynamic content.
#[derive(Debug)]
pub enum WdlStringValue {
    /// No expression at all, `@@` escapes unfolded.
    Literal(String),
    /// The whole string is a single root expression.
    FullExpression,
    /// One or more `@{...}` interpolations spliced between literal segments.
    Template(WdlStringTemplate),
    /// An `@{` opener without a matching close: dynamic but opaque.
    MalformedTemplate,
}

/// Literal fragments of a template value in source order.
///
/// A template with N interpolations has exactly N+1 literal segments.
#[derive(Debug)]
pub struct WdlStringTemplate {
    literal_segments: Vec<String>,
}

impl WdlStringTemplate {
    /// At least one interpolation, so at least two segments.
    #[verifier::type_invariant]
    spec fn has_interpolation(&self) -> bool {
        self.literal_segments@.len() >= 2
    }
}

/// The four cases, as mathematical values.
pub enum Classified {
    Literal(Seq<char>),
    FullExpression,
    Template(Seq<Seq<char>>),
    MalformedTemplate,
}

impl View for WdlStringTemplate {
    type V = Seq<Seq<char>>;

    closed spec fn view(&self) -> Seq<Seq<char>> {
        texts(self.literal_segments@)
    }
}

impl View for WdlStringValue {
    type V = Classified;

    open spec fn view(&self) -> Classified {
        match self {
            WdlStringValue::Literal(text) => Classified::Literal(text@),
            WdlStringValue::FullExpression => Classified::FullExpression,
            WdlStringValue::Template(template) => Classified::Template(template@),
            WdlStringValue::MalformedTemplate => Classified::MalformedTemplate,
        }
    }
}

/// Position of the `}` that closes an interpolation body, scanning from `at`.
/// A quoted brace does not close it, and a doubled quote inside a quoted text
/// does not end that text.
pub open spec fn interpolation_end(text: Seq<char>, at: int, quoted: bool) -> Option<int>
    decreases text.len() - at,
{
    if at < 0 || at >= text.len() {
        None
    } else if text[at] == '\'' {
        if quoted && at + 1 < text.len() && text[at + 1] == '\'' {
            interpolation_end(text, at + 2, quoted)
        } else {
            interpolation_end(text, at + 1, !quoted)
        }
    } else if text[at] == '}' && !quoted {
        Some(at)
    } else {
        interpolation_end(text, at + 1, quoted)
    }
}

/// `text` begins with the two characters `first` and `second`.
pub open spec fn opens_with(text: Seq<char>, first: char, second: char) -> bool {
    text.len() >= 2 && text[0] == first && text[1] == second
}

/// Literal text `lead` in front of the first of `pieces`.
pub open spec fn led_by(lead: Seq<char>, pieces: Option<Seq<Seq<char>>>) -> Option<
    Seq<Seq<char>>,
> {
    match pieces {
        Some(list) => Some(list.update(0, lead + list[0])),
        None => None,
    }
}

/// Finished segments `done` in front of `pieces`.
pub open spec fn after(done: Seq<Seq<char>>, pieces: Option<Seq<Seq<char>>>) -> Option<
    Seq<Seq<char>>,
> {
    match pieces {
        Some(list) => Some(done + list),
        None => None,
    }
}

/// The literal segments of `text` around its interpolations, escapes
/// unfolded; nothing where an interpolation is not closed.
pub open spec fn literal_pieces(text: Seq<char>) -> Option<Seq<Seq<char>>>
    decreases text.len(),
{
    if text.len() == 0 {
        Some(seq![Seq::<char>::empty()])
    } else if opens_with(text, '@', '@') {
        led_by(seq!['@'], literal_pieces(text.skip(2)))
    } else if opens_with(text, '@', '{') {
        match interpolation_end(text, 2, false) {
            Some(end) => if 2 <= end < text.len() {
                after(seq![Seq::<char>::empty()], literal_pieces(text.skip(end + 1)))
            } else {
                None
            },
            None => None,
        }
    } else {
        led_by(seq![text[0]], literal_pieces(text.skip(1)))
    }
}

/// A root expression: one leading `@` that neither escapes nor interpolates.
pub open spec fn is_root_expression(text: Seq<char>) -> bool {
    text.len() > 0 && text[0] == '@' && !opens_with(text, '@', '@') && !opens_with(text, '@', '{')
}

/// Which of the four cases `text` falls under.
pub open spec fn classified(text: Seq<char>) -> Classified {
    if is_root_expression(text) {
        Classified::FullExpression
    } else {
        match literal_pieces(text) {
            Some(pieces) => if pieces.len() == 1 {
                Classified::Literal(pieces[0])
            } else {
                Classified::Template(pieces)
            },
            None => Classified::MalformedTemplate,
        }
    }
}

/// The runtime value of `text` depends on evaluated content.
pub open spec fn is_dynamic(text: Seq<char>) -> bool {
    !(classified(text) is Literal)
}

/// `segments` with `fills` between them.
pub open spec fn filled(segments: Seq<Seq<u32>>, fills: Seq<Seq<u32>>) -> Seq<u32>
    decreases segments.len(),
{
    if segments.len() == 0 {
        Seq::empty()
    } else if segments.len() == 1 || fills.len() == 0 {
        segments[0]
    } else {
        filled(segments.drop_last(), fills.drop_last()) + fills.last() + segments.last()
    }
}

/// Some content of the gaps between `segments` gives exactly `candidate`.
pub open spec fn can_produce(segments: Seq<Seq<u32>>, candidate: Seq<u32>) -> bool {
    exists|fills: Seq<Seq<u32>>|
        fills.len() + 1 == segments.len() && #[trigger] filled(segments, fills) == candidate
}

/// The code points of a text.
pub open spec fn plain_codes(text: Seq<char>) -> Seq<u32> {
    Seq::new(text.len(), |i: int| text[i] as u32)
}

/// The code points of a text after ASCII letters are lowered.
pub open spec fn folded_codes(text: Seq<char>) -> Seq<u32> {
    Seq::new(text.len(), |i: int| folded(text[i]) as u32)
}

pub open spec fn plain_segments(segments: Seq<Seq<char>>) -> Seq<Seq<u32>> {
    Seq::new(segments.len(), |i: int| plain_codes(segments[i]))
}

pub open spec fn folded_segments(segments: Seq<Seq<char>>) -> Seq<Seq<u32>> {
    Seq::new(segments.len(), |i: int| folded_codes(segments[i]))
}

/// The value may equal one of `allowed`.
pub open spec fn may_match(value: Classified, allowed: Seq<Seq<char>>) -> bool {
    match value {
        Classified::Literal(text) => one_of(text, allowed),
        Classified::FullExpression => true,
        Classified::MalformedTemplate => true,
        Classified::Template(segments) => exists|i: int|
            0 <= i < allowed.len() && can_produce(
                plain_segments(segments),
                plain_codes(#[trigger] allowed[i]),
            ),
    }
}

/// The value may equal one of `allowed` up to ASCII case.
pub open spec fn may_match_ignoring_case(value: Classified, allowed: Seq<Seq<char>>) -> bool {
    match value {
        Classified::Literal(text) => one_of_ignoring_case(text, allowed),
        Classified::FullExpression => true,
        Classified::MalformedTemplate => true,
        Classified::Template(segments) => exists|i: int|
            0 <= i < allowed.len() && can_produce(
                folded_segments(segments),
                folded_codes(#[trigger] allowed[i]),
            ),
    }
}

/// The number of characters in all segments together.
pub open spec fn total_chars(segments: Seq<Seq<char>>) -> nat
    decreases segments.len(),
{
    if segments.len() == 0 {
        0
    } else {
        total_chars(segments.drop_last()) + segments.last().len()
    }
}

/// The value may have exactly `expected` characters.
pub open spec fn may_have_length(value: Classified, expected: int) -> bool {
    match value {
        Classified::Literal(text) => text.len() == expected,
        Classified::FullExpression => true,
        Classified::MalformedTemplate => true,
        Classified::Template(segments) => total_chars(segments) <= expected,
    }
}

/// Sets of characters that rules allow in the literal parts of a template.
#[derive(Debug, Clone, Copy, PartialEq, Eq, Structural)]
pub enum CharClass {
    Digits,
    SignedDigits,
    NumberParts,
    DurationParts,
}

/// `c` is in the class.
pub open spec fn in_class(class: CharClass, c: char) -> bool {
    match class {
        CharClass::Digits => is_digit(c) || c == '+',
        CharClass::SignedDigits => is_digit(c) || c == '+' || c == '-',
        CharClass::NumberParts => is_digit(c) || c == '+' || c == '-' || c == '.' || c == 'e' || c
            == 'E',
        CharClass::DurationParts => is_digit(c) || c == 'P' || c == 'T' || c == 'Y' || c == 'M'
            || c == 'W' || c == 'D' || c == 'H' || c == 'S' || c == '.' || c == ',',
    }
}

/// Every character of every segment is in the class.
pub open spec fn all_in_class(segments: Seq<Seq<char>>, class: CharClass) -> bool {
    forall|i: int, j: int|
        0 <= i < segments.len() && 0 <= j < segments[i].len() ==> in_class(
            class,
            #[trigger] segments[i][j],
        )
}

impl CharClass {
    pub fn holds(self, c: char) -> (inside: bool)
        ensures
            inside == in_class(self, c),
    {
        let digit = '0' <= c && c <= '9';
        match self {
            CharClass::Digits => digit || c == '+',
            CharClass::SignedDigits => digit || c == '+' || c == '-',
            CharClass::NumberParts => digit || c == '+' || c == '-' || c == '.' || c == 'e' || c
                == 'E',
            CharClass::DurationParts => digit || c == 'P' || c == 'T' || c == 'Y' || c == 'M' || c
                == 'W' || c == 'D' || c == 'H' || c == 'S' || c == '.' || c == ',',
        }
    }
}

proof fn lemma_end_in_range(text: Seq<char>, at: int, quoted: bool)
    ensures
        match interpolation_end(text, at, quoted) {
            Some(end) => at <= end < text.len() && text[end] == '}',
            None => true,
        },
    decreases text.len() - at,
{
    if 0 <= at < text.len() {
        if text[at] == '\'' {
            if quoted && at + 1 < text.len() && text[at + 1] == '\'' {
                lemma_end_in_range(text, at + 2, quoted);
            } else {
                lemma_end_in_range(text, at + 1, !quoted);
            }
        } else if text[at] == '}' && !quoted {
        } else {
            lemma_end_in_range(text, at + 1, quoted);
        }
    }
}

proof fn lemma_end_shifted(text: Seq<char>, shift: int, at: int, quoted: bool)
    requires
        0 <= shift <= text.len(),
        0 <= at,
    ensures
        interpolation_end(text.skip(shift), at, quoted) == (match interpolation_end(
            text,
            at + shift,
            quoted,
        ) {
            Some(end) => Some(end - shift),
            None => None,
        }),
    decreases text.len() - at,
{
    let rest = text.skip(shift);
    if at < rest.len() {
        assert(rest[at] == text[at + shift]);
        if at + 1 < rest.len() {
            assert(rest[at + 1] == text[at + 1 + shift]);
        }
        lemma_end_shifted(text, shift, at + 1, quoted);
        lemma_end_shifted(text, shift, at + 1, !quoted);
        if at + 2 <= text.len() {
            lemma_end_shifted(text, shift, at + 2, quoted);
        }
    }
}

/// A text with N interpolations has N+1 literal segments; never none at all.
pub proof fn lemma_pieces_nonempty(text: Seq<char>)
    ensures
        literal_pieces(text) is Some ==> literal_pieces(text)->Some_0.len() >= 1,
    decreases text.len(),
{
    if text.len() > 0 {
        if opens_with(text, '@', '@') {
            lemma_pieces_nonempty(text.skip(2));
        } else if opens_with(text, '@', '{') {
            lemma_end_in_range(text, 2, false);
            match interpolation_end(text, 2, false) {
                Some(end) => {
                    lemma_pieces_nonempty(text.skip(end + 1));
                },
                None => {},
            }
        } else {
            lemma_pieces_nonempty(text.skip(1));
        }
    }
}

/// Position of the `}` that closes the interpolation body at `from`.
fn interpolation_close(text: &[char], from: usize) -> (close: Option<usize>)
    requires
        from <= text@.len(),
    ensures
        match close {
            Some(end) => interpolation_end(text@, from as int, false) == Some(end as int) && from
                <= end < text@.len(),
            None => interpolation_end(text@, from as int, false) is None,
        },
{
    let length: usize = text.len();
    let mut index: usize = from;
    let mut quoted: bool = false;
    while index < length
        invariant
            from <= index <= length,
            length == text@.len(),
            interpolation_end(text@, from as int, false) == interpolation_end(
                text@,
                index as int,
                quoted,
            ),
        decreases length - index,
    {
        let c = text[index];
        if c == '\'' {
            if quoted && length - index > 1 && text[index + 1] == '\'' {
                index += 2;
                continue;
            }
            quoted = !quoted;
        } else if c == '}' && !quoted {
            return Some(index);
        }
        index += 1;
    }
    None
}

fn push_segment(segments: &mut Vec<String>, literal: &Vec<char>)
    ensures
        texts(final(segments)@) == texts(old(segments)@).push(literal@),
{
    segments.push(string_of(literal.as_slice()));
    assert(texts(segments@) =~= texts(old(segments)@).push(literal@));
}

/// Split `text` into its literal segments, or `None` where an interpolation
/// is not closed.
fn parse_template(text: &[char]) -> (segments: Option<Vec<String>>)
    ensures
        match segments {
            Some(list) => literal_pieces(text@) == Some(texts(list@)) && list@.len() >= 1,
            None => literal_pieces(text@) is None,
        },
{
    let length: usize = text.len();
    let mut segments: Vec<String> = Vec::new();
    let mut literal: Vec<char> = Vec::new();
    let mut index: usize = 0;
    proof {
        assert(text@.skip(0) =~= text@);
        lemma_pieces_nonempty(text@);
        if literal_pieces(text@) is Some {
            let p = literal_pieces(text@)->Some_0;
            assert(Seq::<char>::empty() + p[0] =~= p[0]);
            assert(p.update(0, Seq::<char>::empty() + p[0]) =~= p);
            assert(texts(segments@) + p =~= p);
        }
    }
    while index < length
        invariant
            index <= length,
            length == text@.len(),
            literal_pieces(text@) == after(
                texts(segments@),
                led_by(literal@, literal_pieces(text@.skip(index as int))),
            ),
        decreases length - index,
    {
        let ghost rest = text@.skip(index as int);
        let ghost done = texts(segments@);
        let ghost lead = literal@;
        let c = text[index];
        assert(rest[0] == c);
        let follows: bool = length - index > 1;
        if follows {
            assert(rest[1] == text@[index + 1]);
        }
        if c == '@' && follows && text[index + 1] == '@' {
            literal.push('@');
            proof {
                assert(rest.skip(2) =~= text@.skip(index + 2));
                lemma_pieces_nonempty(rest.skip(2));
                if literal_pieces(rest.skip(2)) is Some {
                    let p = literal_pieces(rest.skip(2))->Some_0;
                    assert(lead + (seq!['@'] + p[0]) =~= literal@ + p[0]);
                    assert(p.update(0, seq!['@'] + p[0]).update(0, lead + (seq!['@'] + p[0]))
                        =~= p.update(0, literal@ + p[0]));
                }
            }
            index += 2;
        } else if c == '@' && follows && text[index + 1] == '{' {
            proof {
                lemma_end_shifted(text@, index as int, 2, false);
                lemma_end_in_range(text@, index + 2, false);
            }
            match interpolation_close(text, index + 2) {
                None => {
                    return None;
                },
                Some(close) => {
                    push_segment(&mut segments, &literal);
                    literal = Vec::new();
                    proof {
                        let tail = text@.skip(close + 1);
                        assert(rest.skip(close - index + 1) =~= tail);
                        lemma_pieces_nonempty(tail);
                        if literal_pieces(tail) is Some {
                            let p = literal_pieces(tail)->Some_0;
                            let none = Seq::<char>::empty();
                            assert(none + p[0] =~= p[0]);
                            assert(p.update(0, none + p[0]) =~= p);
                            assert(lead + none =~= lead);
                            assert(done + (seq![none] + p).update(0, lead + none) =~= done.push(
                                lead,
                            ) + p);
                        }
                    }
                    index = close + 1;
                },
            }
        } else {
            literal.push(c);
            proof {
                assert(rest.skip(1) =~= text@.skip(index + 1));
                lemma_pieces_nonempty(rest.skip(1));
                if literal_pieces(rest.skip(1)) is Some {
                    let p = literal_pieces(rest.skip(1))->Some_0;
                    assert(lead + (seq![c] + p[0]) =~= literal@ + p[0]);
                    assert(p.update(0, seq![c] + p[0]).update(0, lead + (seq![c] + p[0]))
                        =~= p.update(0, literal@ + p[0]));
                }
            }
            index += 1;
        }
    }
    let ghost done = texts(segments@);
    push_segment(&mut segments, &literal);
    proof {
        let none = Seq::<char>::empty();
        assert(text@.skip(index as int) =~= Seq::<char>::empty());
        assert(literal@ + none =~= literal@);
        assert(done + seq![none].update(0, literal@ + none) =~= done.push(literal@));
    }
    Some(segments)
}

impl WdlStringValue {
    /// Classify a raw JSON string value into one of the four cases.
    pub fn classify(value: &str) -> (class: WdlStringValue)
        ensures
            class@ == classified(value@),
    {
        let chars = chars_of(value);
        if chars.len() > 0 && chars[0] == '@' && !(chars.len() > 1 && (chars[1] == '@' || chars[1]
            == '{')) {
            return WdlStringValue::FullExpression;
        }
        match parse_template(chars.as_slice()) {
            None => WdlStringValue::MalformedTemplate,
            Some(mut segments) => {
                if segments.len() == 1 {
                    let literal = segments[0].clone();
                    WdlStringValue::Literal(literal)
                } else {
                    WdlStringValue::Template(WdlStringTemplate { literal_segments: segments })
                }
            },
        }
    }

    /// True when the runtime value depends on evaluated content.
    pub fn has_dynamic_value(&self) -> (dynamic: bool)
        ensures
            dynamic == !(self@ is Literal),
    {
        match self {
            WdlStringValue::Literal(_) => false,
            _ => true,
        }
    }

    /// True only for root expressions, where the entire string is opaque.
    pub fn is_full_expression(&self) -> (full: bool)
        ensures
            full == (self@ is FullExpression),
    {
        match self {
            WdlStringValue::FullExpression => true,
            _ => false,
        }
    }

    /// The underlying literal text, or `None` if any part is dynamic.
    pub fn literal(&self) -> (text: Option<&str>)
        ensures
            match text {
                Some(found) => self@ == Classified::Literal(found@),
                None => !(self@ is Literal),
            },
    {
        match self {
            WdlStringValue::Literal(text) => Some(text.as_str()),
            _ => None,
        }
    }

    /// The template shape when the value is a well-formed template.
    pub fn template(&self) -> (found: Option<&WdlStringTemplate>)
        ensures
            match found {
                Some(template) => self@ == Classified::Template(template@),
                None => !(self@ is Template),
            },
    {
        match self {
            WdlStringValue::Template(template) => Some(template),
            _ => None,
        }
    }

    /// Could this value equal one of `allowed`? Dynamic values that cannot be
    /// ruled out answer `true`.
    pub fn may_match_exact(&self, allowed: &[&str]) -> (may: bool)
        ensures
            may == may_match(self@, names(allowed@)),
    {
        match self {
            WdlStringValue::Literal(text) => in_list(text.as_str(), allowed),
            WdlStringValue::Template(template) => {
                let mut i: usize = 0;
                while i < allowed.len()
                    invariant
                        i <= allowed@.len(),
                        self@ == Classified::Template(template@),
                        forall|j: int|
                            0 <= j < i ==> !can_produce(
                                plain_segments(template@),
                                plain_codes(#[trigger] names(allowed@)[j]),
                            ),
                    decreases allowed@.len() - i,
                {
                    if template.may_match_exact(allowed[i]) {
                        assert(names(allowed@)[i as int] == allowed@[i as int]@);
                        return true;
                    }
                    i += 1;
                }
                false
            },
            _ => true,
        }
    }

    /// Same as `may_match_exact` but with ASCII case folding.
    pub fn may_match_exact_ignore_case(&self, allowed: &[&str]) -> (may: bool)
        ensures
            may == may_match_ignoring_case(self@, names(allowed@)),
    {
        match self {
            WdlStringValue::Literal(text) => in_list_ignoring_case(text.as_str(), allowed),
            WdlStringValue::Template(template) => {
                let mut i: usize = 0;
                while i < allowed.len()
                    invariant
                        i <= allowed@.len(),
                        self@ == Classified::Template(template@),
                        forall|j: int|
                            0 <= j < i ==> !can_produce(
                                folded_segments(template@),
                                folded_codes(#[trigger] names(allowed@)[j]),
                            ),
                    decreases allowed@.len() - i,
                {
                    if template.may_match_exact_ignore_case(allowed[i]) {
                        assert(names(allowed@)[i as int] == allowed@[i as int]@);
                        return true;
                    }
                    i += 1;
                }
                false
            },
            _ => true,
        }
    }

    /// Could this value have exactly `expected` characters? A template may
    /// whenever its literal text alone does not exceed that.
    pub fn may_have_char_len(&self, expected: usize) -> (may: bool)
        ensures
            may == may_have_length(self@, expected as int),
    {
        match self {
            WdlStringValue::Literal(text) => chars_of(text.as_str()).len() == expected,
            WdlStringValue::Template(template) => template.has_at_most_chars(expected),
            _ => true,
        }
    }
}

/// `part` stands in `text` at `at`.
spec fn codes_at(text: Seq<u32>, part: Seq<u32>, at: int) -> bool {
    &&& 0 <= at
    &&& at + part.len() <= text.len()
    &&& text.subrange(at, at + part.len()) == part
}

/// The first `k` segments, filled by `fills`, give the first `end` codes.
spec fn reaches(
    segments: Seq<Seq<u32>>,
    candidate: Seq<u32>,
    k: int,
    fills: Seq<Seq<u32>>,
    end: int,
) -> bool {
    &&& 1 <= k <= segments.len()
    &&& fills.len() + 1 == k
    &&& 0 <= end <= candidate.len()
    &&& filled(segments.take(k), fills) == candidate.take(end)
}

proof fn lemma_reach_back(
    segments: Seq<Seq<u32>>,
    candidate: Seq<u32>,
    k: int,
    fills: Seq<Seq<u32>>,
    end: int,
) -> (before: int)
    requires
        1 <= k < segments.len(),
        reaches(segments, candidate, k + 1, fills, end),
    ensures
        reaches(segments, candidate, k, fills.drop_last(), before),
        before <= end - segments[k].len(),
        codes_at(candidate, segments[k], end - segments[k].len()),
{
    assert(segments.take(k + 1).drop_last() =~= segments.take(k));
    let front = filled(segments.take(k), fills.drop_last());
    let whole = candidate.take(end);
    assert(whole == front + fills.last() + segments[k]);
    let before = front.len() as int;
    assert(candidate.take(before) =~= front) by {
        assert forall|i: int| 0 <= i < before implies candidate[i] == front[i] by {
            assert(whole[i] == front[i]);
        }
    }
    let at = end - segments[k].len();
    assert(candidate.subrange(at, end) =~= segments[k]) by {
        assert forall|i: int| 0 <= i < segments[k].len() implies candidate[at + i]
            == segments[k][i] by {
            assert(whole[at + i] == segments[k][i]);
        }
    }
    before
}

proof fn lemma_reach_on(
    segments: Seq<Seq<u32>>,
    candidate: Seq<u32>,
    k: int,
    fills: Seq<Seq<u32>>,
    end: int,
    at: int,
)
    requires
        1 <= k < segments.len(),
        reaches(segments, candidate, k, fills, end),
        end <= at,
        codes_at(candidate, segments[k], at),
    ensures
        reaches(
            segments,
            candidate,
            k + 1,
            fills.push(candidate.subrange(end, at)),
            at + segments[k].len(),
        ),
{
    let gap = candidate.subrange(end, at);
    let more = fills.push(gap);
    assert(segments.take(k + 1).drop_last() =~= segments.take(k));
    assert(more.drop_last() =~= fills);
    assert(candidate.take(end) + gap + segments[k] =~= candidate.take(at + segments[k].len()));
}

fn codes_stand_at(text: &[u32], part: &[u32], at: usize) -> (found: bool)
    requires
        at <= text@.len(),
    ensures
        found == codes_at(text@, part@, at as int),
{
    let length: usize = text.len();
    if part.len() > length - at {
        return false;
    }
    let mut i: usize = 0;
    while i < part.len()
        invariant
            i <= part@.len(),
            length == text@.len(),
            at + part@.len() <= length,
            forall|j: int| 0 <= j < i ==> text@[at + j] == #[trigger] part@[j],
        decreases part@.len() - i,
    {
        if text[at + i] != part[i] {
            assert(text@.subrange(at as int, at + part@.len())[i as int] != part@[i as int]);
            return false;
        }
        i += 1;
    }
    assert(text@.subrange(at as int, at + part@.len()) =~= part@);
    true
}

fn find_codes(text: &[u32], part: &[u32], from: usize) -> (found: Option<usize>)
    requires
        from <= text@.len(),
    ensures
        match found {
            Some(at) => from <= at && codes_at(text@, part@, at as int) && forall|q: int|
                from <= q < at ==> !#[trigger] codes_at(text@, part@, q),
            None => forall|q: int| from <= q ==> !#[trigger] codes_at(text@, part@, q),
        },
{
    let mut at: usize = from;
    while at <= text.len()
        invariant
            from <= at <= text@.len() + 1,
            forall|q: int| from <= q < at ==> !#[trigger] codes_at(text@, part@, q),
        decreases text@.len() + 1 - at,
    {
        if codes_stand_at(text, part, at) {
            return Some(at);
        }
        if at == text.len() {
            return None;
        }
        at += 1;
    }
    None
}

spec fn code_lists(segments: Seq<Vec<u32>>) -> Seq<Seq<u32>> {
    Seq::new(segments.len(), |i: int| segments[i]@)
}

/// Leftmost placement of each inner segment in turn; the last one has to
/// stand at the end.
fn literal_segments_may_match(segments: &Vec<Vec<u32>>, candidate: &[u32]) -> (may: bool)
    requires
        segments@.len() >= 2,
    ensures
        may == can_produce(code_lists(segments@), candidate@),
{
    let ghost segs = code_lists(segments@);
    let ghost text = candidate@;
    let n: usize = segments.len();
    let length: usize = candidate.len();
    let first = &segments[0];
    if !codes_stand_at(candidate, first.as_slice(), 0) {
        proof {
            assert forall|fills: Seq<Seq<u32>>| fills.len() + 1 == segs.len() implies
                #[trigger] filled(segs, fills) != text by {
                if filled(segs, fills) == text {
                    assert(segs.take(n as int) =~= segs);
                    assert(text.take(text.len() as int) =~= text);
                    lemma_starts_with_first(segs, text, n as int, fills, text.len() as int);
                }
            }
        }
        return false;
    }
    let mut offset: usize = first.len();
    let ghost mut fills: Seq<Seq<u32>> = Seq::empty();
    proof {
        assert(segs.take(1)[0] == first@);
        assert(text.take(offset as int) =~= text.subrange(0, first@.len() as int));
        assert(reaches(segs, text, 1, fills, offset as int));
        assert forall|g: Seq<Seq<u32>>, p: int| #[trigger] reaches(segs, text, 1, g, p) implies
            offset <= p by {
            assert(filled(segs.take(1), g) == first@);
            assert(text.take(p).len() == p);
        }
    }
    let mut k: usize = 1;
    while k < n - 1
        invariant
            n == segments@.len(),
            n >= 2,
            length == text.len(),
            1 <= k <= n - 1,
            segs == code_lists(segments@),
            text == candidate@,
            offset <= text.len(),
            reaches(segs, text, k as int, fills, offset as int),
            forall|g: Seq<Seq<u32>>, p: int|
                #[trigger] reaches(segs, text, k as int, g, p) ==> offset <= p,
        decreases n - k,
    {
        let segment = &segments[k];
        assert(segs[k as int] == segment@);
        match find_codes(candidate, segment.as_slice(), offset) {
            None => {
                proof {
                    assert forall|g: Seq<Seq<u32>>| g.len() + 1 == segs.len() implies
                        #[trigger] filled(segs, g) != text by {
                        if filled(segs, g) == text {
                            assert(segs.take(n as int) =~= segs);
                            assert(text.take(text.len() as int) =~= text);
                            lemma_passes(segs, text, n as int, g, text.len() as int, k as int, offset as int);
                        }
                    }
                }
                return false;
            },
            Some(at) => {
                proof {
                    lemma_reach_on(segs, text, k as int, fills, offset as int, at as int);
                    fills = fills.push(text.subrange(offset as int, at as int));
                    assert forall|g: Seq<Seq<u32>>, p: int|
                        #[trigger] reaches(segs, text, k + 1, g, p) implies at + segment@.len()
                        <= p by {
                        let before = lemma_reach_back(segs, text, k as int, g, p);
                        assert(offset <= before);
                        assert(codes_at(text, segment@, p - segment@.len()));
                    }
                }
                offset = at + segment.len();
                k += 1;
            },
        }
    }
    let last = &segments[n - 1];
    assert(segs[n - 1] == last@);
    assert(segs.take(n as int) =~= segs);
    assert(text.take(text.len() as int) =~= text);
    if last.len() <= candidate.len() - offset && codes_stand_at(
        candidate,
        last.as_slice(),
        candidate.len() - last.len(),
    ) {
        proof {
            let at = text.len() - last@.len();
            lemma_reach_on(segs, text, n - 1, fills, offset as int, at);
            let all = fills.push(text.subrange(offset as int, at));
            assert(filled(segs, all) == text);
        }
        true
    } else {
        proof {
            assert forall|g: Seq<Seq<u32>>| g.len() + 1 == segs.len() implies #[trigger] filled(
                segs,
                g,
            ) != text by {
                if filled(segs, g) == text {
                    assert(reaches(segs, text, n as int, g, text.len() as int));
                    let before = lemma_reach_back(segs, text, n - 1, g, text.len() as int);
                    assert(offset <= before);
                }
            }
        }
        false
    }
}

proof fn lemma_starts_with_first(
    segments: Seq<Seq<u32>>,
    candidate: Seq<u32>,
    k: int,
    fills: Seq<Seq<u32>>,
    end: int,
)
    requires
        reaches(segments, candidate, k, fills, end),
    ensures
        codes_at(candidate, segments[0], 0),
    decreases k,
{
    if k == 1 {
        assert(segments.take(1)[0] == segments[0]);
        assert(candidate.subrange(0, segments[0].len() as int) =~= candidate.take(end));
    } else {
        let before = lemma_reach_back(segments, candidate, k - 1, fills, end);
        lemma_starts_with_first(segments, candidate, k - 1, fills.drop_last(), before);
    }
}

/// A full placement places segment `k` at or after any bound on the end of
/// the placements of the segments before it.
proof fn lemma_passes(
    segments: Seq<Seq<u32>>,
    candidate: Seq<u32>,
    m: int,
    fills: Seq<Seq<u32>>,
    end: int,
    k: int,
    bound: int,
)
    requires
        1 <= k < m,
        reaches(segments, candidate, m, fills, end),
        forall|g: Seq<Seq<u32>>, p: int|
            #[trigger] reaches(segments, candidate, k, g, p) ==> bound <= p,
    ensures
        exists|q: int| bound <= q && #[trigger] codes_at(candidate, segments[k], q),
    decreases m,
{
    let before = lemma_reach_back(segments, candidate, m - 1, fills, end);
    if m - 1 == k {
        assert(bound <= before);
        assert(codes_at(candidate, segments[k], end - segments[k].len()));
    } else {
        lemma_passes(segments, candidate, m - 1, fills.drop_last(), before, k, bound);
    }
}

fn codes_of(text: &str) -> (codes: Vec<u32>)
    ensures
        codes@ == plain_codes(text@),
{
    let chars = chars_of(text);
    let mut codes: Vec<u32> = Vec::new();
    let mut i: usize = 0;
    while i < chars.len()
        invariant
            i <= chars.len(),
            chars@ == text@,
            codes@.len() == i,
            forall|j: int| 0 <= j < i ==> codes@[j] == plain_codes(text@)[j],
        decreases chars.len() - i,
    {
        codes.push(chars[i] as u32);
        i += 1;
    }
    assert(codes@ =~= plain_codes(text@));
    codes
}

fn folded_codes_of(text: &str) -> (codes: Vec<u32>)
    ensures
        codes@ == folded_codes(text@),
{
    let chars = chars_of(text);
    let mut codes: Vec<u32> = Vec::new();
    let mut i: usize = 0;
    while i < chars.len()
        invariant
            i <= chars.len(),
            chars@ == text@,
            codes@.len() == i,
            forall|j: int| 0 <= j < i ==> codes@[j] == folded_codes(text@)[j],
        decreases chars.len() - i,
    {
        let c = chars[i];
        if 'A' <= c && c <= 'Z' {
            codes.push(c as u32 + 32);
        } else {
            codes.push(c as u32);
        }
        i += 1;
    }
    assert(codes@ =~= folded_codes(text@));
    codes
}

proof fn lemma_total_chars_grows(segments: Seq<Seq<char>>, i: int)
    requires
        0 <= i <= segments.len(),
    ensures
        total_chars(segments.take(i)) <= total_chars(segments),
    decreases segments.len() - i,
{
    if i < segments.len() {
        lemma_total_chars_grows(segments, i + 1);
        assert(segments.take(i + 1).drop_last() =~= segments.take(i));
    } else {
        assert(segments.take(i) =~= segments);
    }
}

impl WdlStringTemplate {
    /// The literal segments, in source order.
    pub fn literal_segments(&self) -> (segments: &[String])
        ensures
            texts(segments@) == self@,
            segments@.len() >= 2,
    {
        proof {
            use_type_invariant(&*self);
        }
        self.literal_segments.as_slice()
    }

    /// Static text before the first interpolation.
    pub fn static_prefix(&self) -> (prefix: &str)
        ensures
            prefix@ == self@.first(),
    {
        proof {
            use_type_invariant(&*self);
        }
        self.literal_segments[0].as_str()
    }

    /// Static text after the final interpolation.
    pub fn static_suffix(&self) -> (suffix: &str)
        ensures
            suffix@ == self@.last(),
    {
        proof {
            use_type_invariant(&*self);
        }
        self.literal_segments[self.literal_segments.len() - 1].as_str()
    }

    /// The literal segments together have at most `limit` characters.
    pub fn has_at_most_chars(&self, limit: usize) -> (holds: bool)
        ensures
            holds == (total_chars(self@) <= limit),
    {
        let mut left: usize = limit;
        let mut i: usize = 0;
        while i < self.literal_segments.len()
            invariant
                i <= self.literal_segments@.len(),
                left <= limit,
                total_chars(self@.take(i as int)) == limit - left,
            decreases self.literal_segments@.len() - i,
        {
            let length: usize = chars_of(self.literal_segments[i].as_str()).len();
            proof {
                assert(self@.take(i + 1).drop_last() =~= self@.take(i as int));
                lemma_total_chars_grows(self@, i + 1);
            }
            if length > left {
                return false;
            }
            left -= length;
            i += 1;
        }
        assert(self@.take(i as int) =~= self@);
        true
    }

    /// Every character of every literal segment is in `class`.
    pub fn literal_chars_all(&self, class: CharClass) -> (holds: bool)
        ensures
            holds == all_in_class(self@, class),
    {
        let mut i: usize = 0;
        while i < self.literal_segments.len()
            invariant
                i <= self.literal_segments@.len(),
                forall|a: int, b: int|
                    0 <= a < i && 0 <= b < self@[a].len() ==> in_class(
                        class,
                        #[trigger] self@[a][b],
                    ),
            decreases self.literal_segments@.len() - i,
        {
            let chars = chars_of(self.literal_segments[i].as_str());
            assert(self@[i as int] == chars@);
            let mut j: usize = 0;
            while j < chars.len()
                invariant
                    j <= chars.len(),
                    i < self@.len(),
                    self@[i as int] == chars@,
                    forall|b: int|
                        0 <= b < j ==> in_class(class, #[trigger] self@[i as int][b]),
                decreases chars.len() - j,
            {
                if !class.holds(chars[j]) {
                    assert(!in_class(class, self@[i as int][j as int]));
                    return false;
                }
                j += 1;
            }
            i += 1;
        }
        true
    }

    /// Some content of the interpolations gives exactly `candidate`.
    pub fn may_match_exact(&self, candidate: &str) -> (may: bool)
        ensures
            may == can_produce(plain_segments(self@), plain_codes(candidate@)),
    {
        proof {
            use_type_invariant(&*self);
        }
        let mut codes: Vec<Vec<u32>> = Vec::new();
        let mut i: usize = 0;
        while i < self.literal_segments.len()
            invariant
                i <= self.literal_segments@.len(),
                codes@.len() == i,
                forall|j: int| 0 <= j < i ==> (#[trigger] codes@[j])@ == plain_codes(self@[j]),
            decreases self.literal_segments@.len() - i,
        {
            codes.push(codes_of(self.literal_segments[i].as_str()));
            i += 1;
        }
        assert(code_lists(codes@) =~= plain_segments(self@));
        literal_segments_may_match(&codes, codes_of(candidate).as_slice())
    }

    /// Some content of the interpolations gives `candidate` up to ASCII case.
    pub fn may_match_exact_ignore_case(&self, candidate: &str) -> (may: bool)
        ensures
            may == can_produce(folded_segments(self@), folded_codes(candidate@)),
    {
        proof {
            use_type_invariant(&*self);
        }
        let mut codes: Vec<Vec<u32>> = Vec::new();
        let mut i: usize = 0;
        while i < self.literal_segments.len()
            invariant
                i <= self.literal_segments@.len(),
                codes@.len() == i,
                forall|j: int| 0 <= j < i ==> (#[trigger] codes@[j])@ == folded_codes(self@[j]),
            decreases self.literal_segments@.len() - i,
        {
            codes.push(folded_codes_of(self.literal_segments[i].as_str()));
            i += 1;
        }
        assert(code_lists(codes@) =~= folded_segments(self@));
        literal_segments_may_match(&codes, folded_codes_of(candidate).as_slice())
    }
}

} // verus!
