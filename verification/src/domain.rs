//! Validated subscriber names and email addresses.

use vstd::prelude::*;

verus! {

/// The largest number of characters a subscriber name may have.
pub const MAX_NAME_LENGTH: usize = 256;

/// Why a name or an email address was rejected.
#[derive(Clone, Copy, Debug, PartialEq, Eq, Structural)]
pub enum ValidationError {
    /// The name is empty or holds white space only.
    BlankName,
    /// The name has more than [`MAX_NAME_LENGTH`] characters.
    NameTooLong,
    /// The name holds one of the characters `/ ( ) " < > \ { }`.
    ForbiddenNameCharacter,
    /// The email address is empty.
    EmptyEmail,
    /// The email address lacks an `@` after a local part, or a `.` in the
    /// domain that follows the `@`.
    MalformedEmail,
}

/// The characters with the Unicode property `White_Space`.
pub open spec fn is_whitespace(c: char) -> bool {
    let n = c as u32;
    ||| 0x09 <= n <= 0x0d
    ||| n == 0x20
    ||| n == 0x85
    ||| n == 0xa0
    ||| n == 0x1680
    ||| 0x2000 <= n <= 0x200a
    ||| n == 0x2028
    ||| n == 0x2029
    ||| n == 0x202f
    ||| n == 0x205f
    ||| n == 0x3000
}

/// The characters that no subscriber name may hold.
pub open spec fn is_forbidden_in_name(c: char) -> bool {
    ||| c == '/'
    ||| c == '('
    ||| c == ')'
    ||| c == '"'
    ||| c == '<'
    ||| c == '>'
    ||| c == '\\'
    ||| c == '{'
    ||| c == '}'
}

/// Nothing is left of `s` once white space is trimmed away.
pub open spec fn is_blank(s: Seq<char>) -> bool {
    forall|i: int| 0 <= i < s.len() ==> is_whitespace(#[trigger] s[i])
}

/// Some character of `s` is forbidden in a name.
pub open spec fn has_forbidden_char(s: Seq<char>) -> bool {
    exists|i: int| 0 <= i < s.len() && is_forbidden_in_name(#[trigger] s[i])
}

/// The verdict on a raw name: the first rule it breaks, if any.
pub open spec fn check_name(s: Seq<char>) -> Result<(), ValidationError> {
    if is_blank(s) {
        Err(ValidationError::BlankName)
    } else if s.len() > MAX_NAME_LENGTH {
        Err(ValidationError::NameTooLong)
    } else if has_forbidden_char(s) {
        Err(ValidationError::ForbiddenNameCharacter)
    } else {
        Ok(())
    }
}

/// A name is valid when it is not blank, has at most [`MAX_NAME_LENGTH`]
/// characters and none of the forbidden ones.
pub open spec fn valid_name(s: Seq<char>) -> bool {
    &&& !is_blank(s)
    &&& s.len() <= MAX_NAME_LENGTH
    &&& !has_forbidden_char(s)
}

/// `s` has an `@` at `at`, after a local part that is not empty, and a `.` at
/// `dot`, in the domain that follows the `@`.
pub open spec fn splits_as_email(s: Seq<char>, at: int, dot: int) -> bool {
    &&& 0 < at < dot < s.len()
    &&& s[at] == '@'
    &&& s[dot] == '.'
}

/// An email address is valid when it has the shape `local@domain`, with a
/// local part that is not empty and a domain that holds a `.`.
pub open spec fn valid_email(s: Seq<char>) -> bool {
    exists|at: int, dot: int| splits_as_email(s, at, dot)
}

/// The verdict on a raw email address.
pub open spec fn check_email(s: Seq<char>) -> Result<(), ValidationError> {
    if s.len() == 0 {
        Err(ValidationError::EmptyEmail)
    } else if !valid_email(s) {
        Err(ValidationError::MalformedEmail)
    } else {
        Ok(())
    }
}

/// Whether `c` is white space.
pub fn char_is_whitespace(c: char) -> (r: bool)
    ensures
        r == is_whitespace(c),
{
    let n: u32 = c as u32;
    (0x09 <= n && n <= 0x0d) || n == 0x20 || n == 0x85 || n == 0xa0 || n == 0x1680 || (0x2000 <= n
        && n <= 0x200a) || n == 0x2028 || n == 0x2029 || n == 0x202f || n == 0x205f || n == 0x3000
}

/// Whether `c` is forbidden in a subscriber name.
pub fn char_is_forbidden_in_name(c: char) -> (r: bool)
    ensures
        r == is_forbidden_in_name(c),
{
    c == '/' || c == '(' || c == ')' || c == '"' || c == '<' || c == '>' || c == '\\' || c == '{'
        || c == '}'
}

/// A subscriber's display name, checked.
#[derive(Debug, PartialEq, Eq)]
pub struct SubscriberName {
    text: String,
}

impl View for SubscriberName {
    type V = Seq<char>;

    closed spec fn view(&self) -> Seq<char> {
        self.text@
    }
}

impl SubscriberName {
    #[verifier::type_invariant]
    spec fn well_formed(&self) -> bool {
        valid_name(self.text@)
    }

    /// Accepts `s` as a name if it breaks none of the rules for names, and
    /// says which rule it breaks first if it does.
    pub fn parse(s: String) -> (r: Result<SubscriberName, ValidationError>)
        ensures
            match r {
                Ok(name) => valid_name(s@) && name@ == s@,
                Err(e) => check_name(s@) == Err::<(), ValidationError>(e),
            },
    {
        let mut blank = true;
        let mut forbidden = false;
        let mut length: usize = 0;
        for c in it: s.as_str().chars()
            invariant
                it.seq() == s@,
                blank == is_blank(s@.take(it.index())),
                forbidden == has_forbidden_char(s@.take(it.index())),
                length == if it.index() <= MAX_NAME_LENGTH {
                    it.index()
                } else {
                    MAX_NAME_LENGTH + 1
                },
        {
            proof {
                let k = it.index();
                let before = s@.take(k);
                let after = s@.take(k + 1);
                assert(forall|i: int| 0 <= i < k ==> after[i] == before[i]);
                assert(after[k] == c);
            }
            if !char_is_whitespace(c) {
                blank = false;
            }
            if char_is_forbidden_in_name(c) {
                forbidden = true;
            }
            if length <= MAX_NAME_LENGTH {
                length = length + 1;
            }
        }
        assert(s@.take(s@.len() as int) == s@);
        if blank {
            Err(ValidationError::BlankName)
        } else if length > MAX_NAME_LENGTH {
            Err(ValidationError::NameTooLong)
        } else if forbidden {
            Err(ValidationError::ForbiddenNameCharacter)
        } else {
            Ok(SubscriberName { text: s })
        }
    }

    /// The name as text.
    pub fn as_ref(&self) -> (r: &str)
        ensures
            r@ == self@,
            valid_name(self@),
    {
        proof {
            use_type_invariant(self);
        }
        self.text.as_str()
    }
}

/// Some `@` of the first `k` characters of `s` stands after a local part that
/// is not empty.
pub open spec fn has_at_sign(s: Seq<char>, k: int) -> bool {
    exists|at: int| 0 < at < k && #[trigger] s[at] == '@'
}

/// A subscriber's email address, checked.
#[derive(Debug, PartialEq, Eq)]
pub struct SubscriberEmail {
    text: String,
}

impl View for SubscriberEmail {
    type V = Seq<char>;

    closed spec fn view(&self) -> Seq<char> {
        self.text@
    }
}

impl SubscriberEmail {
    #[verifier::type_invariant]
    spec fn well_formed(&self) -> bool {
        valid_email(self.text@)
    }

    /// Accepts `s` as an email address if it has the shape of one, and says
    /// what is wrong with it if it has not.
    pub fn parse(s: String) -> (r: Result<SubscriberEmail, ValidationError>)
        ensures
            match r {
                Ok(email) => valid_email(s@) && email@ == s@,
                Err(e) => check_email(s@) == Err::<(), ValidationError>(e),
            },
    {
        let mut empty = true;
        let mut at_seen = false;
        let mut shaped = false;
        for c in it: s.as_str().chars()
            invariant
                it.seq() == s@,
                empty == (it.index() == 0),
                at_seen == has_at_sign(s@, it.index() as int),
                shaped == valid_email(s@.take(it.index())),
        {
            proof {
                let k = it.index() as int;
                let before = s@.take(k);
                let after = s@.take(k + 1);
                if has_at_sign(s@, k) && c == '.' {
                    let at = choose|at: int| 0 < at < k && #[trigger] s@[at] == '@';
                    assert(splits_as_email(after, at, k));
                }
                if valid_email(before) {
                    let (at, dot) = choose|at: int, dot: int| splits_as_email(before, at, dot);
                    assert(splits_as_email(after, at, dot));
                }
                if valid_email(after) {
                    let (at, dot) = choose|at: int, dot: int| splits_as_email(after, at, dot);
                    if dot < k {
                        assert(splits_as_email(before, at, dot));
                    }
                }
            }
            if at_seen && c == '.' {
                shaped = true;
            }
            if !empty && c == '@' {
                at_seen = true;
            }
            empty = false;
        }
        assert(s@.take(s@.len() as int) == s@);
        if empty {
            Err(ValidationError::EmptyEmail)
        } else if !shaped {
            Err(ValidationError::MalformedEmail)
        } else {
            Ok(SubscriberEmail { text: s })
        }
    }

    /// The address as text.
    pub fn as_ref(&self) -> (r: &str)
        ensures
            r@ == self@,
            valid_email(self@),
    {
        proof {
            use_type_invariant(self);
        }
        self.text.as_str()
    }
}

/// A subscriber who has passed validation and is not yet stored.
#[derive(Debug, PartialEq, Eq)]
pub struct NewSubscriber {
    pub email: SubscriberEmail,
    pub name: SubscriberName,
}

/// What a [`NewSubscriber`] holds, as plain text.
pub ghost struct NewSubscriberView {
    pub email: Seq<char>,
    pub name: Seq<char>,
}

impl View for NewSubscriber {
    type V = NewSubscriberView;

    open spec fn view(&self) -> NewSubscriberView {
        NewSubscriberView { email: self.email@, name: self.name@ }
    }
}

} // verus!
