use vstd::prelude::*;

verus! {

/// Maximum number of Unicode scalar values in discovery metadata text.
pub const MAX_METADATA_TEXT_CHARS: usize = 1024;

/// Unicode general category `Cc` (control codes): U+0000..U+001F and U+007F..U+009F.
pub open spec fn is_control_char(c: char) -> bool {
    let code = c as u32;
    code <= 0x1f || (0x7f <= code && code <= 0x9f)
}

/// The Unicode `White_Space` property (PropList.txt).
pub open spec fn is_white_space_char(c: char) -> bool {
    let code = c as u32;
    ||| 0x09 <= code && code <= 0x0d
    ||| code == 0x20
    ||| code == 0x85
    ||| code == 0xa0
    ||| code == 0x1680
    ||| 0x2000 <= code && code <= 0x200a
    ||| code == 0x2028
    ||| code == 0x2029
    ||| code == 0x202f
    ||| code == 0x205f
    ||| code == 0x3000
}

/// No character of `text` is a control character.
pub open spec fn has_no_control(text: Seq<char>) -> bool {
    forall|i: int| 0 <= i < text.len() ==> !is_control_char(#[trigger] text[i])
}

/// Trimming leading and trailing white space leaves a non-empty `text` unchanged.
pub open spec fn is_trimmed(text: Seq<char>) -> bool {
    text.len() > 0 ==> !is_white_space_char(text[0]) && !is_white_space_char(text.last())
}

/// Non-empty, trimmed, control-free text of at most `max_chars` characters.
pub open spec fn is_bounded_label(text: Seq<char>, max_chars: nat) -> bool {
    &&& text.len() > 0
    &&& is_trimmed(text)
    &&& text.len() <= max_chars
    &&& has_no_control(text)
}

/// The length bound of a bounded label counts characters (Unicode scalar
/// values), not bytes: a text is a bounded label of at most `max_chars`
/// characters exactly when it has between 1 and `max_chars` characters, its
/// first and last characters are not white space, and none of its characters
/// is a control character.
pub proof fn law_label_bound_counts_characters(text: Seq<char>, max_chars: nat)
    ensures
        is_bounded_label(text, max_chars) <==> (0 < text.len() <= max_chars
            && !is_white_space_char(text[0]) && !is_white_space_char(text[text.len() - 1])
            && forall|i: int|
            0 <= i < text.len() ==> !((#[trigger] text[i] as u32) <= 0x1f || (0x7f <= (
            text[i] as u32) && (text[i] as u32) <= 0x9f))),
{
}

/// Whether `c` is a control character.
pub fn char_is_control(c: char) -> (r: bool)
    ensures
        r == is_control_char(c),
{
    let code = c as u32;
    code <= 0x1f || (0x7f <= code && code <= 0x9f)
}

/// Whether `c` has the Unicode `White_Space` property.
pub fn char_is_white_space(c: char) -> (r: bool)
    ensures
        r == is_white_space_char(c),
{
    let code = c as u32;
    (0x09 <= code && code <= 0x0d) || code == 0x20 || code == 0x85 || code == 0xa0 || code
        == 0x1680 || (0x2000 <= code && code <= 0x200a) || code == 0x2028 || code == 0x2029
        || code == 0x202f || code == 0x205f || code == 0x3000
}

/// Whether `text` has at most `max_chars` characters, none of them a control character.
pub fn is_short_control_free(text: &str, max_chars: usize) -> (r: bool)
    ensures
        r == (text@.len() <= max_chars && has_no_control(text@)),
{
    let mut count: usize = 0;
    for c in it: text.chars()
        invariant
            count == it.index(),
            it.seq() == text@,
            count <= max_chars,
            has_no_control(text@.take(count as int)),
    {
        if count == max_chars {
            return false;
        }
        if char_is_control(c) {
            assert(text@[count as int] == c);
            return false;
        }
        assert(text@.take(count + 1) == text@.take(count as int).push(c));
        count = count + 1;
    }
    assert(text@.take(count as int) == text@);
    true
}

/// Whether `text` is non-empty, trimmed, control-free and at most `max_chars` characters long.
pub fn is_bounded_label_text(text: &str, max_chars: usize) -> (r: bool)
    ensures
        r == is_bounded_label(text@, max_chars as nat),
{
    let mut count: usize = 0;
    let mut first: char = ' ';
    let mut last: char = ' ';
    for c in it: text.chars()
        invariant
            count == it.index(),
            it.seq() == text@,
            count <= max_chars,
            has_no_control(text@.take(count as int)),
            count > 0 ==> first == text@[0] && last == text@[count - 1],
    {
        if count == max_chars {
            return false;
        }
        if char_is_control(c) {
            assert(text@[count as int] == c);
            return false;
        }
        assert(text@.take(count + 1) == text@.take(count as int).push(c));
        if count == 0 {
            first = c;
        }
        last = c;
        count = count + 1;
    }
    assert(text@.take(count as int) == text@);
    count > 0 && !char_is_white_space(first) && !char_is_white_space(last)
}

/// Whether `a` and `b` are the same text.
pub fn same_text(a: &str, b: &str) -> (r: bool)
    ensures
        r == (a@ == b@),
{
    a.to_owned() == b.to_owned()
}

/// Validated human-readable discovery metadata: non-empty, trimmed, free of
/// control characters and at most [`MAX_METADATA_TEXT_CHARS`] characters long.
#[derive(Debug, Eq, Hash, Ord, PartialEq, PartialOrd)]
pub struct MetadataText(String);

impl Clone for MetadataText {
    fn clone(&self) -> (r: Self)
        ensures
            r@ == self@,
    {
        proof {
            use_type_invariant(self);
        }
        MetadataText(self.0.clone())
    }
}

impl View for MetadataText {
    type V = Seq<char>;

    closed spec fn view(&self) -> Seq<char> {
        self.0@
    }
}

impl MetadataText {
    #[verifier::type_invariant]
    spec fn well_formed(self) -> bool {
        is_bounded_label(self.0@, MAX_METADATA_TEXT_CHARS as nat)
    }

    /// Validates `value` as metadata text.
    pub fn parse(value: &str) -> (r: Result<MetadataText, MetadataTextError>)
        ensures
            r is Ok <==> is_bounded_label(value@, MAX_METADATA_TEXT_CHARS as nat),
            r matches Ok(text) ==> text@ == value@,
    {
        if !is_bounded_label_text(value, MAX_METADATA_TEXT_CHARS) {
            return Err(MetadataTextError);
        }
        Ok(MetadataText(value.to_owned()))
    }

    /// Returns the validated text.
    pub fn as_str(&self) -> (r: &str)
        ensures
            r@ == self@,
            is_bounded_label(r@, MAX_METADATA_TEXT_CHARS as nat),
    {
        proof {
            use_type_invariant(self);
        }
        self.0.as_str()
    }
}

impl std::str::FromStr for MetadataText {
    type Err = MetadataTextError;

    fn from_str(value: &str) -> (r: Result<Self, Self::Err>)
        ensures
            r is Ok <==> is_bounded_label(value@, MAX_METADATA_TEXT_CHARS as nat),
            r matches Ok(text) ==> text@ == value@,
    {
        MetadataText::parse(value)
    }
}

/// Discovery metadata text was empty, padded, controlled, or too long.
#[derive(Clone, Copy, Debug, Eq, PartialEq)]
pub struct MetadataTextError;

} // verus!
