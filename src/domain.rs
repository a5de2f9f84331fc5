//! Parse-and-validate wrappers for the values a visitor submits.
use vstd::prelude::*;
use vstd::string::*;

verus! {

/// Longest accepted display name, in characters.
pub const MAX_NAME_LENGTH: usize = 256;

/// Why a raw value was refused at the boundary.
#[derive(Debug, Clone, Copy, PartialEq, Eq, Structural)]
pub enum ValidationError {
    /// The email address is not of the shape `local@domain.tld`.
    Malformed,
    /// The name is empty or holds only whitespace.
    Empty,
    /// The name is longer than `MAX_NAME_LENGTH` characters.
    TooLong,
    /// The name holds a character that could inject markup or headers.
    ForbiddenCharacter,
}

/// Unicode `White_Space`, as `char::is_whitespace` decides it.
pub open spec fn is_whitespace_char(c: char) -> bool {
    let u = c as u32;
    (0x09 <= u && u <= 0x0d) || u == 0x20 || u == 0x85 || u == 0xa0 || u == 0x1680 || (0x2000
        <= u && u <= 0x200a) || u == 0x2028 || u == 0x2029 || u == 0x202f || u == 0x205f || u
        == 0x3000
}

/// Unicode general category `Cc`, as `char::is_control` decides it.
pub open spec fn is_control_char(c: char) -> bool {
    let u = c as u32;
    u <= 0x1f || (0x7f <= u && u <= 0x9f)
}

/// Characters that a display name may not hold.
pub open spec fn is_forbidden_char(c: char) -> bool {
    c == '/' || c == '(' || c == ')' || c == '"' || c == '<' || c == '>' || c == '\\' || c == '{'
        || c == '}' || is_control_char(c)
}

pub open spec fn is_blank(s: Seq<char>) -> bool {
    forall|i: int| 0 <= i < s.len() ==> is_whitespace_char(#[trigger] s[i])
}

pub open spec fn has_forbidden_char(s: Seq<char>) -> bool {
    exists|i: int| 0 <= i < s.len() && is_forbidden_char(#[trigger] s[i])
}

/// The verdict on a raw display name; the first failing rule wins.
pub open spec fn name_verdict(s: Seq<char>) -> Result<(), ValidationError> {
    if is_blank(s) {
        Err(ValidationError::Empty)
    } else if s.len() > MAX_NAME_LENGTH {
        Err(ValidationError::TooLong)
    } else if has_forbidden_char(s) {
        Err(ValidationError::ForbiddenCharacter)
    } else {
        Ok(())
    }
}

pub open spec fn is_valid_name(s: Seq<char>) -> bool {
    name_verdict(s) is Ok
}

pub open spec fn lacks_char(s: Seq<char>, c: char, lo: int, hi: int) -> bool {
    forall|i: int| lo <= i < hi ==> #[trigger] s[i] != c
}

/// Exactly one `@`, with a non-empty part before it and a `.` somewhere after it.
pub open spec fn is_valid_email(s: Seq<char>) -> bool {
    exists|k: int|
        0 < k < s.len() && #[trigger] s[k] == '@' && lacks_char(s, '@', 0, k) && lacks_char(
            s,
            '@',
            k + 1,
            s.len() as int,
        ) && !lacks_char(s, '.', k + 1, s.len() as int)
}

/// The position of the first `c` at or after `from`, if any.
fn find_char(s: &str, c: char, from: usize) -> (r: Option<usize>)
    requires
        from <= s@.len(),
    ensures
        match r {
            Some(k) => from <= k < s@.len() && s@[k as int] == c && lacks_char(
                s@,
                c,
                from as int,
                k as int,
            ),
            None => lacks_char(s@, c, from as int, s@.len() as int),
        },
{
    let n = s.unicode_len();
    let mut i = from;
    while i < n
        invariant
            n == s@.len(),
            from <= i <= n,
            lacks_char(s@, c, from as int, i as int),
        decreases n - i,
    {
        if s.get_char(i) == c {
            return Some(i);
        }
        i = i + 1;
    }
    None
}

/// A display name that passed validation.
#[derive(Debug, Clone)]
pub struct SubscriberName {
    value: String,
}

impl SubscriberName {
    pub closed spec fn view(&self) -> Seq<char> {
        self.value@
    }

    /// Accepts `s` exactly when it is not blank, not too long and free of
    /// forbidden characters.
    pub fn parse(s: String) -> (r: Result<SubscriberName, ValidationError>)
        ensures
            name_verdict(s@) is Ok <==> r is Ok,
            r matches Ok(n) ==> n@ == s@,
            r matches Err(e) ==> name_verdict(s@) == Err::<(), ValidationError>(e),
    {
        let n = s.as_str().unicode_len();
        let mut blank = true;
        let mut i: usize = 0;
        while i < n
            invariant
                n == s@.len(),
                i <= n,
                blank == is_blank(s@.subrange(0, i as int)),
            decreases n - i,
        {
            let c = s.as_str().get_char(i);
            let u = c as u32;
            let ws = (0x09 <= u && u <= 0x0d) || u == 0x20 || u == 0x85 || u == 0xa0 || u == 0x1680
                || (0x2000 <= u && u <= 0x200a) || u == 0x2028 || u == 0x2029 || u == 0x202f || u
                == 0x205f || u == 0x3000;
            proof {
                let a = s@.subrange(0, i as int);
                let b = s@.subrange(0, i + 1);
                assert(forall|j: int| 0 <= j < i ==> a[j] == b[j]);
                assert(b[i as int] == c);
            }
            blank = blank && ws;
            i = i + 1;
        }
        assert(s@.subrange(0, n as int) =~= s@);
        if blank {
            return Err(ValidationError::Empty);
        }
        if n > MAX_NAME_LENGTH {
            return Err(ValidationError::TooLong);
        }
        let mut j: usize = 0;
        while j < n
            invariant
                n == s@.len(),
                j <= n,
                !is_blank(s@),
                n <= MAX_NAME_LENGTH,
                forall|k: int| 0 <= k < j ==> !is_forbidden_char(#[trigger] s@[k]),
            decreases n - j,
        {
            let c = s.as_str().get_char(j);
            let u = c as u32;
            if c == '/' || c == '(' || c == ')' || c == '"' || c == '<' || c == '>' || c == '\\'
                || c == '{' || c == '}' || u <= 0x1f || (0x7f <= u && u <= 0x9f) {
                assert(is_forbidden_char(s@[j as int]));
                return Err(ValidationError::ForbiddenCharacter);
            }
            j = j + 1;
        }
        Ok(SubscriberName { value: s })
    }

    pub fn as_str(&self) -> (r: &str)
        ensures
            r@ == self@,
    {
        self.value.as_str()
    }
}

/// An email address that passed validation.
#[derive(Debug, Clone)]
pub struct SubscriberEmail {
    value: String,
}

impl SubscriberEmail {
    pub closed spec fn view(&self) -> Seq<char> {
        self.value@
    }

    /// Accepts `s` exactly when it is of the shape `local@domain.tld`.
    pub fn parse(s: String) -> (r: Result<SubscriberEmail, ValidationError>)
        ensures
            is_valid_email(s@) <==> r is Ok,
            r matches Ok(e) ==> e@ == s@,
            r matches Err(e) ==> e == ValidationError::Malformed,
    {
        let n = s.as_str().unicode_len();
        let k = match find_char(s.as_str(), '@', 0) {
            Some(k) => k,
            None => return Err(ValidationError::Malformed),
        };
        if k == 0 {
            assert(!is_valid_email(s@));
            return Err(ValidationError::Malformed);
        }
        match find_char(s.as_str(), '@', k + 1) {
            Some(k2) => {
                assert(!is_valid_email(s@)) by {
                    if exists|m: int|
                        0 < m < s@.len() && #[trigger] s@[m] == '@' && lacks_char(s@, '@', 0, m)
                            && lacks_char(s@, '@', m + 1, s@.len() as int) {
                        let m = choose|m: int|
                            0 < m < s@.len() && #[trigger] s@[m] == '@' && lacks_char(
                                s@,
                                '@',
                                0,
                                m,
                            ) && lacks_char(s@, '@', m + 1, s@.len() as int);
                        if m < k {
                        } else if m == k {
                            assert(s@[k2 as int] == '@');
                        } else {
                            assert(s@[k as int] == '@');
                        }
                    }
                }
                return Err(ValidationError::Malformed);
            },
            None => {},
        }
        match find_char(s.as_str(), '.', k + 1) {
            Some(_) => {
                assert(is_valid_email(s@)) by {
                    assert(s@[k as int] == '@');
                }
                Ok(SubscriberEmail { value: s })
            },
            None => {
                assert(!is_valid_email(s@)) by {
                    if exists|m: int|
                        0 < m < s@.len() && #[trigger] s@[m] == '@' && lacks_char(s@, '@', 0, m)
                            && lacks_char(s@, '@', m + 1, s@.len() as int) && !lacks_char(
                            s@,
                            '.',
                            m + 1,
                            s@.len() as int,
                        ) {
                        let m = choose|m: int|
                            0 < m < s@.len() && #[trigger] s@[m] == '@' && lacks_char(
                                s@,
                                '@',
                                0,
                                m,
                            ) && lacks_char(s@, '@', m + 1, s@.len() as int) && !lacks_char(
                                s@,
                                '.',
                                m + 1,
                                s@.len() as int,
                            );
                        if m < k {
                            assert(s@[m] == '@');
                        } else if m > k {
                            assert(s@[k as int] == '@');
                        }
                    }
                }
                Err(ValidationError::Malformed)
            },
        }
    }

    pub fn as_str(&self) -> (r: &str)
        ensures
            r@ == self@,
    {
        self.value.as_str()
    }
}

} // verus!

verus! {

/// A visitor whose name and email both passed validation.
#[derive(Debug, Clone)]
pub struct NewSubscriber {
    pub email: SubscriberEmail,
    pub name: SubscriberName,
}

/// The verdict on a submitted `(name, email)` pair: the name is judged first.
pub open spec fn form_verdict(name: Seq<char>, email: Seq<char>) -> Result<(), ValidationError> {
    if name_verdict(name) is Err {
        name_verdict(name)
    } else if !is_valid_email(email) {
        Err(ValidationError::Malformed)
    } else {
        Ok(())
    }
}

/// The raw fields of a subscription form, as submitted.
#[derive(Debug, Clone)]
pub struct FormData {
    email: String,
    name: String,
}

impl FormData {
    pub fn new(email: String, name: String) -> (r: FormData)
        ensures
            r.email_view() == email@,
            r.name_view() == name@,
    {
        FormData { email, name }
    }

    pub closed spec fn email_view(&self) -> Seq<char> {
        self.email@
    }

    pub closed spec fn name_view(&self) -> Seq<char> {
        self.name@
    }

    pub fn email(&self) -> (r: &str)
        ensures
            r@ == self.email_view(),
    {
        self.email.as_str()
    }

    pub fn name(&self) -> (r: &str)
        ensures
            r@ == self.name_view(),
    {
        self.name.as_str()
    }
}

impl NewSubscriber {
    /// Validates both fields of a form; succeeds exactly when both are valid,
    /// and then carries them unchanged.
    pub fn try_from(form: FormData) -> (r: Result<NewSubscriber, ValidationError>)
        ensures
            r is Ok <==> form_verdict(form.name_view(), form.email_view()) is Ok,
            r matches Ok(s) ==> s.name@ == form.name_view() && s.email@ == form.email_view(),
            r matches Err(e) ==> form_verdict(form.name_view(), form.email_view()) == Err::<
                (),
                ValidationError,
            >(e),
    {
        let name = SubscriberName::parse(form.name)?;
        let email = SubscriberEmail::parse(form.email)?;
        Ok(NewSubscriber { email, name })
    }
}

} // verus!
