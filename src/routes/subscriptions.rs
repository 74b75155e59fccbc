use crate::domain::subscriber_email::{invalid_email_message, is_valid_email, SubscriberEmail};
use crate::domain::subscriber_name::{
    invalid_name_message, is_blank, is_valid_name, SubscriberName,
};
use vstd::prelude::*;

verus! {

/// The status of a subscription that was stored.
pub const STATUS_OK: u16 = 200;

/// The status of a form that lacks a field or holds an invalid one.
pub const STATUS_BAD_REQUEST: u16 = 400;

/// The status of a subscription that could not be stored.
pub const STATUS_INTERNAL_SERVER_ERROR: u16 = 500;

/// The fields of a subscription form, once decoded.
pub struct FormData {
    pub name: String,
    pub email: String,
}

/// A subscription whose fields are both valid, ready to be stored.
pub struct NewSubscriber {
    pub email: SubscriberEmail,
    pub name: SubscriberName,
}

/// The form's name and email are acceptable together.
pub open spec fn is_valid_form(name: Seq<char>, email: Seq<char>) -> bool {
    is_valid_name(name) && is_valid_email(email)
}

impl NewSubscriber {
    /// Validates both fields of `form`; the error is the message of the first
    /// field found invalid, the email being checked first.
    pub fn parse(form: FormData) -> (r: Result<NewSubscriber, String>)
        ensures
            r is Ok <==> is_valid_form(form.name@, form.email@),
            r matches Ok(s) ==> s.name@ == form.name@ && s.email@ == form.email@,
            r matches Err(m) ==> m@ == if is_valid_email(form.email@) {
                invalid_name_message(form.name@)
            } else {
                invalid_email_message(form.email@)
            },
    {
        let FormData { name, email } = form;
        let email = match SubscriberEmail::parse(email) {
            Ok(e) => e,
            Err(m) => {
                return Err(m);
            },
        };
        let name = match SubscriberName::parse(name) {
            Ok(n) => n,
            Err(m) => {
                return Err(m);
            },
        };
        Ok(NewSubscriber { email, name })
    }
}

/// What to do with a submitted form: store a subscriber, or answer with a
/// client error and store nothing.
pub enum IntakeAction {
    Store(NewSubscriber),
    Reject,
}

/// A form whose fields are `name` and `email`, each of them possibly
/// missing, leads to a stored subscriber.
pub open spec fn intake_stores(name: Option<Seq<char>>, email: Option<Seq<char>>) -> bool {
    match (name, email) {
        (Some(n), Some(e)) => is_valid_form(n, e),
        _ => false,
    }
}

/// The decision on a submitted form whose fields may be missing: a missing
/// field, or one that fails validation, rejects the form.
pub fn intake(name: Option<String>, email: Option<String>) -> (r: IntakeAction)
    ensures
        r is Store <==> intake_stores(name.deep_view(), email.deep_view()),
        r matches IntakeAction::Store(s) ==> Some(s.name@) == name.deep_view() && Some(s.email@)
            == email.deep_view(),
{
    match (name, email) {
        (Some(name), Some(email)) => match NewSubscriber::parse(FormData { name, email }) {
            Ok(s) => IntakeAction::Store(s),
            Err(_) => IntakeAction::Reject,
        },
        _ => IntakeAction::Reject,
    }
}

/// The status answered for a form: a rejected form is a client error; a
/// stored one succeeds when the store did and is a server error otherwise.
pub fn response_status(rejected: bool, stored: bool) -> (r: u16)
    ensures
        rejected ==> r == STATUS_BAD_REQUEST,
        !rejected && stored ==> r == STATUS_OK,
        !rejected && !stored ==> r == STATUS_INTERNAL_SERVER_ERROR,
{
    if rejected {
        STATUS_BAD_REQUEST
    } else if stored {
        STATUS_OK
    } else {
        STATUS_INTERNAL_SERVER_ERROR
    }
}

/// A form that lacks its name or its email is rejected.
pub proof fn lemma_missing_field_rejected(name: Option<Seq<char>>, email: Option<Seq<char>>)
    requires
        name is None || email is None,
    ensures
        !intake_stores(name, email),
{
}

/// A form whose name or email is present but empty is rejected.
pub proof fn lemma_empty_field_rejected(name: Seq<char>, email: Seq<char>)
    requires
        name.len() == 0 || email.len() == 0,
    ensures
        !intake_stores(Some(name), Some(email)),
{
    if email.len() == 0 {
        assert(!email.contains('@'));
    } else {
        assert(is_blank(name));
    }
}

} // verus!
