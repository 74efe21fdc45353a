//! Validated subscriber identity: the name and email value objects, and the
//! pair of them that a registration is made of.
use vstd::prelude::*;

verus! {

/// Why raw subscriber input was refused.
#[derive(PartialEq, Eq, Structural, Clone, Copy, Debug)]
pub enum ValidationError {
    EmptyName,
    NameTooLong,
    ForbiddenNameCharacter,
    EmptyEmail,
    InvalidEmail,
}

impl ValidationError {
    /// A short human-readable description of the error.
    pub fn describe(&self) -> (r: &'static str)
        ensures
            r@ == self.description(),
    {
        match self {
            ValidationError::EmptyName => "the subscriber name is empty",
            ValidationError::NameTooLong => "the subscriber name is too long",
            ValidationError::ForbiddenNameCharacter => "the subscriber name holds a forbidden character",
            ValidationError::EmptyEmail => "the subscriber email is empty",
            ValidationError::InvalidEmail => "the subscriber email is not a valid address",
        }
    }

    pub open spec fn description(&self) -> Seq<char> {
        match self {
            ValidationError::EmptyName => "the subscriber name is empty"@,
            ValidationError::NameTooLong => "the subscriber name is too long"@,
            ValidationError::ForbiddenNameCharacter => "the subscriber name holds a forbidden character"@,
            ValidationError::EmptyEmail => "the subscriber email is empty"@,
            ValidationError::InvalidEmail => "the subscriber email is not a valid address"@,
        }
    }
}

/// The most grapheme clusters a subscriber name may hold.
pub const MAX_NAME_GRAPHEMES: usize = 256;

/// The characters with the Unicode `White_Space` property.
pub open spec fn is_whitespace(c: char) -> bool {
    let u = c as u32;
    (0x09 <= u && u <= 0x0d) || u == 0x20 || u == 0x85 || u == 0xa0 || u == 0x1680 || (0x2000
        <= u && u <= 0x200a) || u == 0x2028 || u == 0x2029 || u == 0x202f || u == 0x205f || u
        == 0x3000
}

/// A string that trimming would leave empty.
pub open spec fn is_blank(s: Seq<char>) -> bool {
    forall|i: int| 0 <= i < s.len() ==> is_whitespace(#[trigger] s[i])
}

/// Characters that a subscriber name may not hold.
pub open spec fn is_forbidden_name_char(c: char) -> bool {
    c == '/' || c == '(' || c == ')' || c == '"' || c == '<' || c == '>' || c == '\\' || c == '{'
        || c == '}'
}

pub open spec fn has_forbidden_name_char(s: Seq<char>) -> bool {
    exists|i: int| 0 <= i < s.len() && is_forbidden_name_char(#[trigger] s[i])
}

/// The first rule, in the order blank, length, characters, that the name `s`
/// with `graphemes` grapheme clusters breaks.
pub open spec fn name_error(s: Seq<char>, graphemes: nat) -> Option<ValidationError> {
    if is_blank(s) {
        Some(ValidationError::EmptyName)
    } else if graphemes > MAX_NAME_GRAPHEMES {
        Some(ValidationError::NameTooLong)
    } else if has_forbidden_name_char(s) {
        Some(ValidationError::ForbiddenNameCharacter)
    } else {
        None
    }
}

/// The number of extended grapheme clusters of a string.
pub uninterp spec fn grapheme_count_of(s: Seq<char>) -> nat;

/// Relies on unicode-segmentation's `UnicodeSegmentation::graphemes` (extended
/// clusters) to count the grapheme clusters of `s`; the count depends on the
/// characters alone.
#[verifier::external_body]
fn count_graphemes(s: &str) -> (r: usize)
    ensures
        r as nat == grapheme_count_of(s@),
{
    unicode_segmentation::UnicodeSegmentation::graphemes(s, true).count()
}

pub fn is_whitespace_char(c: char) -> (r: bool)
    ensures
        r == is_whitespace(c),
{
    let u = c as u32;
    (0x09 <= u && u <= 0x0d) || u == 0x20 || u == 0x85 || u == 0xa0 || u == 0x1680 || (0x2000
        <= u && u <= 0x200a) || u == 0x2028 || u == 0x2029 || u == 0x202f || u == 0x205f || u
        == 0x3000
}

/// Checks a raw name whose grapheme cluster count is `graphemes`.
pub fn check_name(raw: &str, graphemes: usize) -> (r: Option<ValidationError>)
    ensures
        r == name_error(raw@, graphemes as nat),
{
    let n = raw.unicode_len();
    let mut blank = true;
    let mut forbidden = false;
    let mut i: usize = 0;
    while i < n
        invariant
            n == raw@.len(),
            i <= n,
            blank == (forall|j: int| 0 <= j < i ==> is_whitespace(#[trigger] raw@[j])),
            forbidden == (exists|j: int| 0 <= j < i && is_forbidden_name_char(#[trigger] raw@[j])),
        decreases n - i,
    {
        let c = raw.get_char(i);
        if !is_whitespace_char(c) {
            blank = false;
        }
        if c == '/' || c == '(' || c == ')' || c == '"' || c == '<' || c == '>' || c == '\\' || c
            == '{' || c == '}' {
            forbidden = true;
        }
        i = i + 1;
    }
    if blank {
        Some(ValidationError::EmptyName)
    } else if graphemes > MAX_NAME_GRAPHEMES {
        Some(ValidationError::NameTooLong)
    } else if forbidden {
        Some(ValidationError::ForbiddenNameCharacter)
    } else {
        None
    }
}

/// `k` is the one `@` of `s`, with a non-empty local part before it and a
/// domain after it that neither starts nor ends with a dot.
pub open spec fn is_at_split(s: Seq<char>, k: int) -> bool {
    &&& 0 < k < s.len() - 1
    &&& s[k] == '@'
    &&& forall|j: int| 0 <= j < s.len() && s[j] == '@' ==> j == k
    &&& s[k + 1] != '.'
    &&& s[s.len() - 1] != '.'
}

/// The email grammar: `local@domain`, one `@`, both parts non-empty, no
/// whitespace, and a domain that neither starts nor ends with a dot.
pub open spec fn valid_email(s: Seq<char>) -> bool {
    &&& forall|i: int| 0 <= i < s.len() ==> !is_whitespace(#[trigger] s[i])
    &&& exists|k: int| is_at_split(s, k)
}

pub open spec fn email_error(s: Seq<char>) -> Option<ValidationError> {
    if s.len() == 0 {
        Some(ValidationError::EmptyEmail)
    } else if !valid_email(s) {
        Some(ValidationError::InvalidEmail)
    } else {
        None
    }
}

/// Checks a raw email address against the grammar.
pub fn check_email(raw: &str) -> (r: Option<ValidationError>)
    ensures
        r == email_error(raw@),
{
    let n = raw.unicode_len();
    if n == 0 {
        return Some(ValidationError::EmptyEmail);
    }
    let mut first_at: Option<usize> = None;
    let mut second_at = false;
    let mut space = false;
    let mut i: usize = 0;
    while i < n
        invariant
            n == raw@.len(),
            i <= n,
            space == (exists|j: int| 0 <= j < i && is_whitespace(#[trigger] raw@[j])),
            match first_at {
                None => forall|j: int| 0 <= j < i ==> #[trigger] raw@[j] != '@',
                Some(p) => {
                    &&& p < i
                    &&& raw@[p as int] == '@'
                    &&& forall|j: int| 0 <= j < p ==> #[trigger] raw@[j] != '@'
                    &&& second_at == (exists|j: int| p < j < i && #[trigger] raw@[j] == '@')
                },
            },
            first_at is None ==> !second_at,
        decreases n - i,
    {
        let c = raw.get_char(i);
        if is_whitespace_char(c) {
            space = true;
        }
        if c == '@' {
            match first_at {
                None => {
                    first_at = Some(i);
                },
                Some(_) => {
                    second_at = true;
                },
            }
        }
        i = i + 1;
    }
    let ok = match first_at {
        None => false,
        Some(p) => !space && !second_at && 0 < p && p + 1 < n && raw.get_char(p + 1) != '.'
            && raw.get_char(n - 1) != '.',
    };
    proof {
        let s = raw@;
        match first_at {
            None => {
                assert forall|k: int| !is_at_split(s, k) by {
                    if 0 <= k < s.len() {
                        assert(s[k] != '@');
                    }
                }
            },
            Some(p) => {
                if second_at {
                    let j = choose|j: int| p < j < n && #[trigger] s[j] == '@';
                    assert forall|k: int| !is_at_split(s, k) by {
                        if is_at_split(s, k) {
                            assert(s[p as int] == '@');
                            assert(s[j] == '@');
                        }
                    }
                } else {
                    assert forall|j: int| 0 <= j < s.len() && s[j] == '@' implies j == p by {
                        if j < p {
                            assert(s[j] != '@');
                        } else if j > p {
                            assert(!(s[j] == '@'));
                        }
                    }
                    if ok {
                        assert(is_at_split(s, p as int));
                    } else {
                        assert forall|k: int| is_at_split(s, k) implies space by {
                            assert(s[k] == '@');
                        }
                    }
                }
            },
        }
        if space {
            let j = choose|j: int| 0 <= j < n && is_whitespace(#[trigger] s[j]);
            assert(!(forall|i: int| 0 <= i < s.len() ==> !is_whitespace(#[trigger] s[i])));
        }
    }
    if ok {
        None
    } else {
        Some(ValidationError::InvalidEmail)
    }
}

/// A subscriber name that passed validation.
pub struct SubscriberName {
    name: String,
}

impl View for SubscriberName {
    type V = Seq<char>;

    closed spec fn view(&self) -> Seq<char> {
        self.name@
    }
}

impl SubscriberName {
    #[verifier::type_invariant]
    spec fn inv(self) -> bool {
        name_error(self.name@, grapheme_count_of(self.name@)) is None
    }

    /// Validates a raw name; the name is kept as given.
    pub fn parse(raw: String) -> (r: Result<SubscriberName, ValidationError>)
        ensures
            match r {
                Ok(n) => name_error(raw@, grapheme_count_of(raw@)) is None && n@ == raw@,
                Err(e) => name_error(raw@, grapheme_count_of(raw@)) == Some(e),
            },
    {
        let graphemes = count_graphemes(raw.as_str());
        match check_name(raw.as_str(), graphemes) {
            Some(e) => Err(e),
            None => Ok(SubscriberName { name: raw }),
        }
    }

    pub fn as_str(&self) -> (r: &str)
        ensures
            r@ == self@,
    {
        self.name.as_str()
    }
}

/// An email address that passed validation.
pub struct SubscriberEmail {
    email: String,
}

impl View for SubscriberEmail {
    type V = Seq<char>;

    closed spec fn view(&self) -> Seq<char> {
        self.email@
    }
}

impl SubscriberEmail {
    #[verifier::type_invariant]
    spec fn inv(self) -> bool {
        email_error(self.email@) is None
    }

    /// Validates a raw email address; the address is kept as given.
    pub fn parse(raw: String) -> (r: Result<SubscriberEmail, ValidationError>)
        ensures
            match r {
                Ok(e) => email_error(raw@) is None && e@ == raw@,
                Err(e) => email_error(raw@) == Some(e),
            },
    {
        match check_email(raw.as_str()) {
            Some(e) => Err(e),
            None => Ok(SubscriberEmail { email: raw }),
        }
    }

    pub fn as_str(&self) -> (r: &str)
        ensures
            r@ == self@,
    {
        self.email.as_str()
    }
}

/// The first error of a raw `(email, name)` pair: the email is checked first.
pub open spec fn new_subscriber_error(email: Seq<char>, name: Seq<char>) -> Option<ValidationError> {
    if email_error(email) is Some {
        email_error(email)
    } else {
        name_error(name, grapheme_count_of(name))
    }
}

/// A validated registration request.
pub struct NewSubscriber {
    pub email: SubscriberEmail,
    pub name: SubscriberName,
}

impl NewSubscriber {
    /// Validates a raw email and name, the email first.
    pub fn try_from(raw_email: String, raw_name: String) -> (r: Result<NewSubscriber, ValidationError>)
        ensures
            match r {
                Ok(s) => new_subscriber_error(raw_email@, raw_name@) is None && s.email@
                    == raw_email@ && s.name@ == raw_name@,
                Err(e) => new_subscriber_error(raw_email@, raw_name@) == Some(e),
            },
    {
        let email = match SubscriberEmail::parse(raw_email) {
            Ok(e) => e,
            Err(e) => return Err(e),
        };
        let name = match SubscriberName::parse(raw_name) {
            Ok(n) => n,
            Err(e) => return Err(e),
        };
        Ok(NewSubscriber { email, name })
    }
}

} // verus!
