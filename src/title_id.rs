use vstd::prelude::*;
use vstd::string::StringSliceAdditionalSpecFns;

verus! {

broadcast use vstd::string::group_string_axioms;

/// An ASCII decimal digit.
pub open spec fn is_digit(c: char) -> bool {
    '0' <= c && c <= '9'
}

/// An ASCII letter, either case.
pub open spec fn is_letter(c: char) -> bool {
    ('a' <= c && c <= 'z') || ('A' <= c && c <= 'Z')
}

pub open spec fn is_alphanumeric(c: char) -> bool {
    is_digit(c) || is_letter(c)
}

pub open spec fn all_alphanumeric(s: Seq<char>) -> bool {
    forall|i: int| 0 <= i < s.len() ==> is_alphanumeric(#[trigger] s[i])
}

/// Nine ASCII letters or digits, the first of them a letter.
pub open spec fn is_valid_title_id(s: Seq<char>) -> bool {
    &&& s.len() == 9
    &&& all_alphanumeric(s)
    &&& is_letter(s[0])
}

/// The upper-case letter for a lower-case ASCII letter; any other character
/// is left as it is.
pub open spec fn upper_char(c: char) -> char {
    if 'a' <= c && c <= 'z' {
        ((c as u32) - 32) as char
    } else {
        c
    }
}

pub open spec fn ascii_upper(s: Seq<char>) -> Seq<char> {
    s.map_values(|c: char| upper_char(c))
}

/// Why a string is not a title identifier.
#[derive(Clone, Copy, Debug, PartialEq, Eq, Structural)]
pub enum TitleIdError {
    /// The string is not nine bytes long.
    WrongLength,
    /// A character is not an ASCII letter or digit.
    NotAlphanumeric,
    /// The first character is a digit.
    StartsWithDigit,
}

impl TitleIdError {
    /// The error as text for a user.
    pub fn message(&self) -> (r: String)
        ensures
            r@ == match self {
                TitleIdError::WrongLength => "Title ID must be 9 characters long"@,
                TitleIdError::NotAlphanumeric => "Title ID consist of alpha numeric characters only"@,
                TitleIdError::StartsWithDigit => "Title ID must start with an alphabetic character"@,
            },
    {
        match self {
            TitleIdError::WrongLength => String::from_str("Title ID must be 9 characters long"),
            TitleIdError::NotAlphanumeric => String::from_str(
                "Title ID consist of alpha numeric characters only",
            ),
            TitleIdError::StartsWithDigit => String::from_str(
                "Title ID must start with an alphabetic character",
            ),
        }
    }
}

/// Relies on str::to_ascii_uppercase: letters 'a' to 'z' become 'A' to 'Z',
/// every other character stays.
#[verifier::external_body]
fn to_ascii_uppercase(s: &str) -> (r: String)
    ensures
        r@ == ascii_upper(s@),
{
    s.to_ascii_uppercase()
}

/// The nine-character identity of an application on the device, kept in
/// upper case.
#[derive(Debug)]
pub struct TitleId {
    id: String,
}

impl View for TitleId {
    type V = Seq<char>;

    closed spec fn view(&self) -> Seq<char> {
        self.id@
    }
}

impl Clone for TitleId {
    fn clone(&self) -> (r: TitleId)
        ensures
            r@ == self@,
    {
        proof {
            use_type_invariant(self);
        }
        TitleId { id: self.id.clone() }
    }
}

impl TitleId {
    #[verifier::type_invariant]
    spec fn inv(self) -> bool {
        &&& is_valid_title_id(self.id@)
        &&& ascii_upper(self.id@) == self.id@
    }

    /// Checks `s` and returns it in upper case. The length is checked first
    /// (in bytes), then the characters, then the first character.
    pub fn parse(s: &str) -> (r: Result<TitleId, TitleIdError>)
        ensures
            (r == Err::<TitleId, TitleIdError>(TitleIdError::WrongLength)) <==> s.spec_bytes().len()
                != 9,
            (r == Err::<TitleId, TitleIdError>(TitleIdError::NotAlphanumeric)) <==> (
            s.spec_bytes().len() == 9 && !all_alphanumeric(s@)),
            (r == Err::<TitleId, TitleIdError>(TitleIdError::StartsWithDigit)) <==> (
            s.spec_bytes().len() == 9 && all_alphanumeric(s@) && !is_letter(s@[0])),
            r is Ok <==> is_valid_title_id(s@),
            r matches Ok(t) ==> t@ == ascii_upper(s@),
            s@.len() != 9 ==> r is Err,
            s@.len() == 9 && (is_digit(s@[0]) || !all_alphanumeric(s@)) ==> r is Err,
    {
        if s.as_bytes().len() != 9 {
            proof {
                if is_valid_title_id(s@) {
                    assert(vstd::string::is_ascii(s));
                }
            }
            return Err(TitleIdError::WrongLength);
        }
        if !s.is_ascii() {
            proof {
                if all_alphanumeric(s@) {
                    assert(vstd::string::is_ascii(s)) by {
                        assert forall|i: int| 0 <= i < s@.len() implies '\0' <= #[trigger] s@[i]
                            <= '\u{7f}' by {
                            assert(is_alphanumeric(s@[i]));
                        }
                    }
                }
            }
            return Err(TitleIdError::NotAlphanumeric);
        }
        assert(s@.len() == 9);
        let mut i: usize = 0;
        while i < 9
            invariant
                vstd::string::is_ascii(s),
                s@.len() == 9,
                0 <= i <= 9,
                forall|j: int| 0 <= j < i ==> is_alphanumeric(#[trigger] s@[j]),
            decreases 9 - i,
        {
            let b = s.get_ascii(i);
            let alnum = (b >= 48 && b <= 57) || (b >= 65 && b <= 90) || (b >= 97 && b <= 122);
            if !alnum {
                assert(!is_alphanumeric(s@[i as int]));
                return Err(TitleIdError::NotAlphanumeric);
            }
            i = i + 1;
        }
        let first = s.get_ascii(0);
        if first >= 48 && first <= 57 {
            return Err(TitleIdError::StartsWithDigit);
        }
        let id = to_ascii_uppercase(s);
        proof {
            assert(ascii_upper(ascii_upper(s@)) =~= ascii_upper(s@));
            assert(all_alphanumeric(ascii_upper(s@))) by {
                assert forall|j: int| 0 <= j < 9 implies is_alphanumeric(
                    #[trigger] ascii_upper(s@)[j],
                ) by {
                    assert(is_alphanumeric(s@[j]));
                }
            }
        }
        Ok(TitleId { id })
    }

    /// The identifier as text.
    pub fn as_str(&self) -> (r: &str)
        ensures
            r@ == self@,
            is_valid_title_id(self@),
            ascii_upper(self@) == self@,
    {
        proof {
            use_type_invariant(self);
        }
        self.id.as_str()
    }
}

/// The upper-case form of a valid title id is valid and is its own upper-case
/// form, so it is accepted again unchanged.
pub proof fn lemma_canonical_form_is_fixed(s: Seq<char>)
    requires
        is_valid_title_id(s),
    ensures
        is_valid_title_id(ascii_upper(s)),
        ascii_upper(ascii_upper(s)) == ascii_upper(s),
{
    assert(ascii_upper(ascii_upper(s)) =~= ascii_upper(s));
    assert forall|j: int| 0 <= j < 9 implies is_alphanumeric(#[trigger] ascii_upper(s)[j]) by {
        assert(is_alphanumeric(s[j]));
    }
}

impl std::str::FromStr for TitleId {
    type Err = TitleIdError;

    /// Checks `s` and returns it in upper case, as `TitleId::parse` does.
    fn from_str(s: &str) -> (r: Result<TitleId, TitleIdError>)
        ensures
            (r == Err::<TitleId, TitleIdError>(TitleIdError::WrongLength)) <==> s.spec_bytes().len()
                != 9,
            (r == Err::<TitleId, TitleIdError>(TitleIdError::NotAlphanumeric)) <==> (
            s.spec_bytes().len() == 9 && !all_alphanumeric(s@)),
            (r == Err::<TitleId, TitleIdError>(TitleIdError::StartsWithDigit)) <==> (
            s.spec_bytes().len() == 9 && all_alphanumeric(s@) && !is_letter(s@[0])),
            r is Ok <==> is_valid_title_id(s@),
            r matches Ok(t) ==> t@ == ascii_upper(s@),
            s@.len() != 9 ==> r is Err,
            s@.len() == 9 && (is_digit(s@[0]) || !all_alphanumeric(s@)) ==> r is Err,
    {
        TitleId::parse(s)
    }
}

} // verus!
