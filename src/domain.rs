//! Subscriber data, validated before it is stored.
use vstd::prelude::*;

verus! {

/// The number of extended grapheme clusters of `s`, as Unicode Standard
/// Annex #29 segments it.
pub uninterp spec fn extended_grapheme_count(s: Seq<char>) -> nat;

/// Relies on unicode-segmentation's `graphemes(true)`, counted: the
/// extended grapheme clusters of the text, a function of the text alone.
#[verifier::external_body]
fn count_graphemes(s: &str) -> (r: usize)
    ensures
        r as nat == extended_grapheme_count(s@),
{
    unicode_segmentation::UnicodeSegmentation::graphemes(s, true).count()
}

/// The characters with the Unicode `White_Space` property.
pub open spec fn white_space(c: char) -> bool {
    let v = c as u32;
    ||| 0x09 <= v <= 0x0d
    ||| v == 0x20
    ||| v == 0x85
    ||| v == 0xa0
    ||| v == 0x1680
    ||| 0x2000 <= v <= 0x200a
    ||| v == 0x2028
    ||| v == 0x2029
    ||| v == 0x202f
    ||| v == 0x205f
    ||| v == 0x3000
}

/// Whether `c` has the Unicode `White_Space` property, as std's
/// `char::is_whitespace` decides it.
fn is_whitespace(c: char) -> (r: bool)
    ensures
        r == white_space(c),
{
    let v = c as u32;
    (0x09 <= v && v <= 0x0d) || v == 0x20 || v == 0x85 || v == 0xa0 || v == 0x1680 || (0x2000 <= v
        && v <= 0x200a) || v == 0x2028 || v == 0x2029 || v == 0x202f || v == 0x205f || v == 0x3000
}

/// Characters that a subscriber name may not hold.
pub open spec fn forbidden_in_name(c: char) -> bool {
    c == '/' || c == '(' || c == ')' || c == '"' || c == '<' || c == '>' || c == '\\' || c == '{'
        || c == '}'
}

pub const MAX_NAME_GRAPHEMES: usize = 256;

/// A name is refused when it is empty or all white space, when it has more
/// than `MAX_NAME_GRAPHEMES` grapheme clusters, or when it holds a forbidden
/// character.
pub open spec fn valid_subscriber_name(s: Seq<char>) -> bool {
    valid_name_with_graphemes(s, extended_grapheme_count(s))
}

/// The rules on a name `s` that has `graphemes` grapheme clusters.
pub open spec fn valid_name_with_graphemes(s: Seq<char>, graphemes: nat) -> bool {
    &&& exists|i: int| 0 <= i < s.len() && !white_space(#[trigger] s[i])
    &&& graphemes <= MAX_NAME_GRAPHEMES
    &&& forall|i: int| 0 <= i < s.len() ==> !forbidden_in_name(#[trigger] s[i])
}

/// Whether `s`, counted as `graphemes` grapheme clusters, is a valid
/// subscriber name.
pub fn is_valid_name(s: &str, graphemes: usize) -> (r: bool)
    ensures
        r == valid_name_with_graphemes(s@, graphemes as nat),
{
    !all_white_space(s) && graphemes <= MAX_NAME_GRAPHEMES && !has_forbidden_char(s)
}

/// A validated subscriber name.
pub struct SubscriberName(String);

impl View for SubscriberName {
    type V = Seq<char>;

    closed spec fn view(&self) -> Seq<char> {
        self.0@
    }
}

/// A subscriber to be stored.
pub struct NewSubscriber {
    pub email: String,
    pub name: SubscriberName,
}

/// The fields of a subscription request.
pub struct FormData {
    pub email: String,
    pub name: String,
}

impl TryFrom<FormData> for NewSubscriber {
    type Error = String;

    /// A subscriber from a subscription request whose name is valid; the
    /// refusal is the message of `SubscriberName::parse`.
    fn try_from(value: FormData) -> (r: Result<NewSubscriber, String>)
        ensures
            r is Ok <==> valid_subscriber_name(value.name@),
            r matches Ok(s) ==> s.name@ == value.name@ && s.email@ == value.email@,
            r matches Err(message) ==> message@ == value.name@ + " is not a valid subscriber name."@,
    {
        let FormData { email, name } = value;
        match SubscriberName::parse(name) {
            Ok(name) => Ok(NewSubscriber { email, name }),
            Err(message) => Err(message),
        }
    }
}

/// A refused request is answered with a message text, so `try_from` states
/// its result in its own `ensures` rather than through `try_from_spec`.
impl vstd::std_specs::convert::TryFromSpecImpl<FormData> for NewSubscriber {
    open spec fn obeys_try_from_spec() -> bool {
        false
    }

    open spec fn try_from_spec(v: FormData) -> Result<NewSubscriber, String> {
        vstd::pervasive::arbitrary()
    }
}

fn all_white_space(s: &str) -> (r: bool)
    ensures
        r == forall|i: int| 0 <= i < s@.len() ==> white_space(#[trigger] s@[i]),
{
    let n = s.unicode_len();
    let mut i: usize = 0;
    while i < n
        invariant
            n == s@.len(),
            i <= n,
            forall|k: int| 0 <= k < i ==> white_space(#[trigger] s@[k]),
        decreases n - i,
    {
        if !is_whitespace(s.get_char(i)) {
            return false;
        }
        i = i + 1;
    }
    true
}

fn has_forbidden_char(s: &str) -> (r: bool)
    ensures
        r == exists|i: int| 0 <= i < s@.len() && forbidden_in_name(#[trigger] s@[i]),
{
    let n = s.unicode_len();
    let mut i: usize = 0;
    while i < n
        invariant
            n == s@.len(),
            i <= n,
            forall|k: int| 0 <= k < i ==> !forbidden_in_name(#[trigger] s@[k]),
        decreases n - i,
    {
        let c = s.get_char(i);
        if c == '/' || c == '(' || c == ')' || c == '"' || c == '<' || c == '>' || c == '\\' || c
            == '{' || c == '}' {
            return true;
        }
        i = i + 1;
    }
    false
}

impl SubscriberName {
    /// Validates `s` as a subscriber name; a refusal carries the message
    /// "`s` is not a valid subscriber name."
    pub fn parse(s: String) -> (r: Result<SubscriberName, String>)
        ensures
            r is Ok <==> valid_subscriber_name(s@),
            r matches Ok(name) ==> name@ == s@,
            r matches Err(message) ==> message@ == s@ + " is not a valid subscriber name."@,
    {
        if !is_valid_name(s.as_str(), count_graphemes(s.as_str())) {
            let mut message = s;
            message.append(" is not a valid subscriber name.");
            return Err(message);
        }
        Ok(SubscriberName(s))
    }

    pub fn as_str(&self) -> (r: &str)
        ensures
            r@ == self@,
    {
        self.0.as_str()
    }
}

} // verus!
