use vstd::prelude::*;
use vstd::string::StringExecFns;

verus! {

/// `s` is a syntactically valid email address by the grammar of the
/// `validator` crate (a local part and a domain around the last `@`).
pub uninterp spec fn email_syntax_ok(s: Seq<char>) -> bool;

/// Relies on validator's `validate_email`: a syntactic check that depends on
/// the characters alone; it fails at once on a string without an `@`.
#[verifier::external_body]
fn check_email_syntax(s: &str) -> (r: bool)
    ensures
        r == email_syntax_ok(s@),
        !s@.contains('@') ==> !r,
{
    validator::validate_email(s)
}

/// `s` is acceptable as a subscriber's email address. The grammar asks for
/// an `@`; saying so here lets callers see it without consulting the grammar.
pub open spec fn is_valid_email(s: Seq<char>) -> bool {
    s.contains('@') && email_syntax_ok(s)
}

/// The message returned for a string that is not an email address.
pub open spec fn invalid_email_message(s: Seq<char>) -> Seq<char> {
    s + " is not a valid email"@
}

/// A subscriber's email address, syntactically valid; its text is the input
/// to `parse`, neither trimmed nor normalised.
#[derive(Debug)]
pub struct SubscriberEmail(String);

impl View for SubscriberEmail {
    type V = Seq<char>;

    closed spec fn view(&self) -> Seq<char> {
        self.0@
    }
}

impl AsRef<str> for SubscriberEmail {
    fn as_ref(&self) -> (r: &str)
        ensures
            r@ == self@,
    {
        self.0.as_str()
    }
}

impl SubscriberEmail {
    #[verifier::type_invariant]
    spec fn inv(self) -> bool {
        is_valid_email(self.0@)
    }

    /// Accepts `email` as it is when it is a syntactically valid address;
    /// otherwise returns a message that quotes it.
    pub fn parse(email: String) -> (r: Result<SubscriberEmail, String>)
        ensures
            r is Ok <==> is_valid_email(email@),
            r is Ok <==> email_syntax_ok(email@),
            r matches Ok(e) ==> e@ == email@,
            r matches Err(m) ==> m@ == invalid_email_message(email@),
    {
        if check_email_syntax(email.as_str()) {
            Ok(SubscriberEmail(email))
        } else {
            Err(email.concat(" is not a valid email"))
        }
    }

    /// The address's text, as it was given to `parse`; it is always valid.
    pub fn as_str(&self) -> (r: &str)
        ensures
            r@ == self@,
            is_valid_email(r@),
    {
        proof {
            use_type_invariant(self);
        }
        self.0.as_str()
    }
}

} // verus!
