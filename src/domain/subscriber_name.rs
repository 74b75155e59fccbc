use unicode_segmentation::UnicodeSegmentation;
use vstd::prelude::*;
use vstd::string::StringExecFns;

verus! {

/// The largest number of grapheme clusters that a subscriber name may hold.
pub const MAX_NAME_GRAPHEMES: usize = 256;

/// The number of extended grapheme clusters (user-perceived characters) in `s`.
pub uninterp spec fn grapheme_count(s: Seq<char>) -> nat;

/// Relies on unicode_segmentation's `UnicodeSegmentation::graphemes(s, true)`,
/// counted: the number of extended grapheme clusters, a function of the
/// characters alone.
#[verifier::external_body]
fn count_graphemes(s: &str) -> (r: usize)
    ensures
        r == grapheme_count(s@),
{
    s.graphemes(true).count()
}

/// Unicode's `White_Space` property, which `char::is_whitespace` tests and
/// `str::trim` removes from both ends.
pub open spec fn is_white_space(c: char) -> bool {
    ('\u{9}' <= c && c <= '\u{d}') || c == ' ' || c == '\u{85}' || c == '\u{a0}'
        || c == '\u{1680}' || ('\u{2000}' <= c && c <= '\u{200a}') || c == '\u{2028}'
        || c == '\u{2029}' || c == '\u{202f}' || c == '\u{205f}' || c == '\u{3000}'
}

/// The characters that a subscriber name may not hold.
pub open spec fn is_forbidden_char(c: char) -> bool {
    c == '/' || c == '(' || c == ')' || c == '"' || c == '<' || c == '>' || c == '\\'
        || c == '{' || c == '}'
}

/// `s` is empty once the white space at both ends is trimmed away.
pub open spec fn is_blank(s: Seq<char>) -> bool {
    forall|i: int| 0 <= i < s.len() ==> is_white_space(#[trigger] s[i])
}

/// `s` holds a character that a subscriber name may not hold.
pub open spec fn has_forbidden_char(s: Seq<char>) -> bool {
    exists|i: int| 0 <= i < s.len() && is_forbidden_char(#[trigger] s[i])
}

/// `s` is acceptable as a subscriber name.
pub open spec fn is_valid_name(s: Seq<char>) -> bool {
    &&& !is_blank(s)
    &&& grapheme_count(s) <= MAX_NAME_GRAPHEMES
    &&& !has_forbidden_char(s)
}

/// The message returned for a name that is not acceptable.
pub open spec fn invalid_name_message(s: Seq<char>) -> Seq<char> {
    s + " is not a valid subscriber name"@
}

fn white_space(c: char) -> (r: bool)
    ensures
        r == is_white_space(c),
{
    ('\u{9}' <= c && c <= '\u{d}') || c == ' ' || c == '\u{85}' || c == '\u{a0}'
        || c == '\u{1680}' || ('\u{2000}' <= c && c <= '\u{200a}') || c == '\u{2028}'
        || c == '\u{2029}' || c == '\u{202f}' || c == '\u{205f}' || c == '\u{3000}'
}

fn forbidden_char(c: char) -> (r: bool)
    ensures
        r == is_forbidden_char(c),
{
    c == '/' || c == '(' || c == ')' || c == '"' || c == '<' || c == '>' || c == '\\'
        || c == '{' || c == '}'
}

/// A subscriber's display name: not blank, at most 256 grapheme clusters long,
/// and free of the characters `/ ( ) " < > \ { }`.
#[derive(Debug)]
pub struct SubscriberName(String);

impl View for SubscriberName {
    type V = Seq<char>;

    closed spec fn view(&self) -> Seq<char> {
        self.0@
    }
}

impl AsRef<str> for SubscriberName {
    fn as_ref(&self) -> (r: &str)
        ensures
            r@ == self@,
    {
        self.0.as_str()
    }
}

impl SubscriberName {
    #[verifier::type_invariant]
    spec fn inv(self) -> bool {
        is_valid_name(self.0@)
    }

    /// Accepts `name` as it is, untrimmed, when it is a valid subscriber name;
    /// otherwise returns a message that quotes it.
    pub fn parse(name: String) -> (r: Result<SubscriberName, String>)
        ensures
            r is Ok <==> is_valid_name(name@),
            r matches Ok(n) ==> n@ == name@,
            r matches Err(e) ==> e@ == invalid_name_message(name@),
    {
        let mut blank = true;
        let mut forbidden = false;
        for c in it: name.as_str().chars()
            invariant
                it.seq() == name@,
                blank <==> (forall|j: int| 0 <= j < it.index() ==> is_white_space(#[trigger] name@[j])),
                forbidden <==> (exists|j: int| 0 <= j < it.index() && is_forbidden_char(#[trigger] name@[j])),
        {
            blank = blank && white_space(c);
            forbidden = forbidden || forbidden_char(c);
        }
        let too_long = count_graphemes(name.as_str()) > MAX_NAME_GRAPHEMES;
        if blank || too_long || forbidden {
            Err(name.concat(" is not a valid subscriber name"))
        } else {
            Ok(SubscriberName(name))
        }
    }

    /// The name's text, as it was given to `parse`; it is always valid.
    pub fn as_str(&self) -> (r: &str)
        ensures
            r@ == self@,
            is_valid_name(r@),
    {
        proof {
            use_type_invariant(self);
        }
        self.0.as_str()
    }
}

/// A name that is not blank, holds at most 256 grapheme clusters and none of
/// the forbidden characters is accepted, and `parse` then keeps its text.
pub proof fn lemma_plain_name_accepted(s: Seq<char>)
    requires
        exists|i: int| 0 <= i < s.len() && !is_white_space(#[trigger] s[i]),
        grapheme_count(s) <= MAX_NAME_GRAPHEMES,
        forall|i: int| 0 <= i < s.len() ==> !is_forbidden_char(#[trigger] s[i]),
    ensures
        is_valid_name(s),
{
}

/// A name that is empty, or white space alone, is refused.
pub proof fn lemma_blank_name_refused(s: Seq<char>)
    requires
        is_blank(s),
    ensures
        !is_valid_name(s),
{
}

/// A name of more than 256 grapheme clusters is refused.
pub proof fn lemma_long_name_refused(s: Seq<char>)
    requires
        grapheme_count(s) > MAX_NAME_GRAPHEMES,
    ensures
        !is_valid_name(s),
{
}

/// A name that holds any of `/ ( ) " < > \ { }` is refused, whatever its length.
pub proof fn lemma_forbidden_char_refused(s: Seq<char>, i: int)
    requires
        0 <= i < s.len(),
        is_forbidden_char(s[i]),
    ensures
        !is_valid_name(s),
{
}

} // verus!
