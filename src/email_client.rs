use crate::domain::SubscriberEmail;
use std::time::Duration;
use vstd::prelude::*;

verus! {

/// The header that carries the provider's server token.
pub const SERVER_TOKEN_HEADER_KEY: &'static str = "X-Postmark-Server-Token";

/// The path, relative to the provider's base URL, to which an email is posted.
pub const EMAIL_PATH: &'static str = "/email";

/// The URL that `reference` denotes when resolved against the absolute URL
/// `base`, serialised; none where `base` is not an absolute URL or the
/// reference cannot be resolved against it.
pub uninterp spec fn joined_url(base: Seq<char>, reference: Seq<char>) -> Option<Seq<char>>;

/// Relies on url's `Url::join` (through reqwest's re-export) on the URL that
/// `Url::parse` reads from `base`, serialised by `Url::as_str`: reference
/// resolution by the WHATWG URL rules, a function of the two strings alone.
#[verifier::external_body]
fn join_url(base: &str, reference: &str) -> (r: Option<String>)
    ensures
        r matches Some(u) ==> joined_url(base@, reference@) == Some(u@),
        r is None ==> joined_url(base@, reference@) is None,
{
    let base = match reqwest::Url::parse(base) {
        Ok(u) => u,
        Err(_) => return None,
    };
    match base.join(reference) {
        Ok(u) => Some(u.as_str().to_owned()),
        Err(_) => None,
    }
}

/// The provider's server token. Its text is read only through
/// `expose_secret`, where it is put in a request header; the type has no
/// `Debug` and no other accessor, so it is never logged by accident.
pub struct ServerToken {
    token: String,
}

impl View for ServerToken {
    type V = Seq<char>;

    closed spec fn view(&self) -> Seq<char> {
        self.token@
    }
}

impl ServerToken {
    pub fn new(token: String) -> (r: Self)
        ensures
            r@ == token@,
    {
        ServerToken { token }
    }

    /// The token's text.
    pub fn expose_secret(&self) -> (r: &str)
        ensures
            r@ == self@,
    {
        self.token.as_str()
    }
}

/// The JSON body of a send request; its wire field names are `From`, `To`,
/// `Subject`, `HtmlBody` and `TextBody`.
pub struct SendEmailRequest {
    pub from: String,
    pub to: String,
    pub subject: String,
    pub html_body: String,
    pub text_body: String,
}

/// One request to the provider: `POST` to `url`, with `server_token` in the
/// header `SERVER_TOKEN_HEADER_KEY` and `body` as JSON.
pub struct EmailRequest {
    pub url: String,
    pub server_token: ServerToken,
    pub body: SendEmailRequest,
}

/// Why a send failed: the provider did not answer within the client's
/// timeout, or the exchange failed in some other way (DNS, connect, TLS, read).
#[derive(Debug, Clone, Copy, PartialEq, Eq, Structural)]
pub enum DeliveryError {
    Timeout,
    Transport,
}

/// What became of the one attempt to reach the provider.
#[derive(Debug, Clone, Copy, PartialEq, Eq, Structural)]
pub enum TransportOutcome {
    /// The exchange completed with a response.
    Completed,
    /// The timeout expired first.
    TimedOut,
    /// The exchange failed before a response came.
    Failed,
}

/// The result of a send, given what became of the attempt: success only where
/// the exchange completed, and a timeout told apart from other failures.
pub fn delivery_result(outcome: TransportOutcome) -> (r: Result<(), DeliveryError>)
    ensures
        r is Ok <==> outcome == TransportOutcome::Completed,
        r == Err::<(), DeliveryError>(DeliveryError::Timeout) <==> outcome
            == TransportOutcome::TimedOut,
        r == Err::<(), DeliveryError>(DeliveryError::Transport) <==> outcome
            == TransportOutcome::Failed,
{
    match outcome {
        TransportOutcome::Completed => Ok(()),
        TransportOutcome::TimedOut => Err(DeliveryError::Timeout),
        TransportOutcome::Failed => Err(DeliveryError::Transport),
    }
}

/// A client of the transactional-email provider: where to reach it, the
/// sender's address, the server token and the timeout that bounds each send.
pub struct EmailClient {
    base_url: String,
    sender: SubscriberEmail,
    authorization_token: ServerToken,
    timeout: Duration,
}

impl EmailClient {
    /// The provider's base URL.
    pub closed spec fn spec_base_url(&self) -> Seq<char> {
        self.base_url@
    }

    /// The address that every email is sent from.
    pub closed spec fn spec_sender(&self) -> Seq<char> {
        self.sender@
    }

    /// The server token sent with every request.
    pub closed spec fn spec_token(&self) -> Seq<char> {
        self.authorization_token@
    }

    /// The ceiling on each exchange with the provider.
    pub closed spec fn spec_timeout(&self) -> Duration {
        self.timeout
    }

    pub fn new(
        base_url: String,
        sender: SubscriberEmail,
        authorization_token: ServerToken,
        timeout: Duration,
    ) -> (r: Self)
        ensures
            r.spec_base_url() == base_url@,
            r.spec_sender() == sender@,
            r.spec_token() == authorization_token@,
            r.spec_timeout() == timeout,
    {
        EmailClient { base_url, sender, authorization_token, timeout }
    }

    /// The timeout that bounds every exchange made for this client.
    pub fn timeout(&self) -> (r: Duration)
        ensures
            r == self.spec_timeout(),
    {
        self.timeout
    }

    /// The request that sends one email to `recipient`: posted to `/email`
    /// resolved against the base URL, from the client's sender. Fails, with
    /// the base URL as its message, only where that is not an absolute URL.
    pub fn email_request(
        &self,
        recipient: SubscriberEmail,
        subject: &str,
        html_content: &str,
        text_content: &str,
    ) -> (r: Result<EmailRequest, String>)
        ensures
            r is Ok <==> joined_url(self.spec_base_url(), EMAIL_PATH@) is Some,
            r matches Ok(req) ==> {
                &&& Some(req.url@) == joined_url(self.spec_base_url(), EMAIL_PATH@)
                &&& req.server_token@ == self.spec_token()
                &&& req.body.from@ == self.spec_sender()
                &&& req.body.to@ == recipient@
                &&& req.body.subject@ == subject@
                &&& req.body.html_body@ == html_content@
                &&& req.body.text_body@ == text_content@
            },
            r matches Err(m) ==> m@ == self.spec_base_url(),
    {
        let url = match join_url(self.base_url.as_str(), EMAIL_PATH) {
            Some(u) => u,
            None => {
                return Err(self.base_url.clone());
            },
        };
        let body = SendEmailRequest {
            from: self.sender.as_str().to_owned(),
            to: recipient.as_str().to_owned(),
            subject: subject.to_owned(),
            html_body: html_content.to_owned(),
            text_body: text_content.to_owned(),
        };
        let server_token = ServerToken::new(self.authorization_token.expose_secret().to_owned());
        Ok(EmailRequest { url, server_token, body })
    }
}

} // verus!
