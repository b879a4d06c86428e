//! The requests that deliver mail, and what their outcomes mean.
use crate::domain::SubscriberEmail;
use vstd::prelude::*;

verus! {

/// Why a message was not handed over to the mail endpoint.
#[derive(Debug, Clone, Copy, PartialEq, Eq, Structural)]
pub enum DispatchError {
    /// No answer came within the time allowed.
    Timeout,
    /// The request did not get through.
    Transport,
    /// The endpoint answered with a status that is no success.
    Rejected,
}

/// How an attempt to reach the mail endpoint ended.
#[derive(Debug, Clone, Copy, PartialEq, Eq, Structural)]
pub enum Delivery {
    /// The endpoint answered, with this HTTP status.
    Responded { status: u16 },
    /// The time allowed ran out first.
    TimedOut,
    /// The network failed.
    Failed,
}

/// Whether an HTTP status reports success: the codes from 200 to 299.
pub open spec fn is_success_status(status: u16) -> bool {
    200 <= status <= 299
}

/// What an attempt that ended as `delivery` amounts to.
pub open spec fn delivery_verdict(delivery: Delivery) -> Result<(), DispatchError> {
    match delivery {
        Delivery::Responded { status } => if is_success_status(status) {
            Ok(())
        } else {
            Err(DispatchError::Rejected)
        },
        Delivery::TimedOut => Err(DispatchError::Timeout),
        Delivery::Failed => Err(DispatchError::Transport),
    }
}

/// Judges one attempt. Nothing is tried again.
pub fn dispatch_result(delivery: Delivery) -> (r: Result<(), DispatchError>)
    ensures
        r == delivery_verdict(delivery),
{
    match delivery {
        Delivery::Responded { status } => {
            if 200 <= status && status <= 299 {
                Ok(())
            } else {
                Err(DispatchError::Rejected)
            }
        },
        Delivery::TimedOut => Err(DispatchError::Timeout),
        Delivery::Failed => Err(DispatchError::Transport),
    }
}

/// The body of a request to the mail endpoint. On the wire its fields are
/// called `From`, `To`, `Subject`, `HtmlBody` and `TextBody`.
#[derive(Debug)]
pub struct SendEmailRequest {
    pub from: String,
    pub to: String,
    pub subject: String,
    pub html_body: String,
    pub text_body: String,
}

/// One POST to the mail endpoint: where it goes, what authorises it, how
/// long it may take, and what it carries.
pub struct EmailRequest {
    pub url: String,
    pub authorization_token: String,
    pub timeout_milliseconds: u64,
    pub body: SendEmailRequest,
}

/// The header that carries the token which authorises a request.
pub const AUTHORIZATION_HEADER: &'static str = "X-Postmark-Server-Token";

/// The address of the mail endpoint below its base URL.
pub open spec fn endpoint_url(base_url: Seq<char>) -> Seq<char> {
    base_url + "/email"@
}

/// The sender's side of the mail endpoint.
pub struct EmailClient {
    base_url: String,
    sender: String,
    authorization_token: String,
    timeout_milliseconds: u64,
}

impl EmailClient {
    /// The base URL of the mail endpoint.
    pub closed spec fn base_url(&self) -> Seq<char> {
        self.base_url@
    }

    /// The address that the messages are sent from.
    pub closed spec fn sender(&self) -> Seq<char> {
        self.sender@
    }

    /// The token that authorises each request.
    pub closed spec fn authorization_token(&self) -> Seq<char> {
        self.authorization_token@
    }

    /// The time that one request may take, in milliseconds.
    pub closed spec fn timeout(&self) -> u64 {
        self.timeout_milliseconds
    }

    /// A client of the mail endpoint at `url`, which sends from `sender`.
    pub fn new(
        url: String,
        sender: String,
        authorization_token: String,
        timeout_milliseconds: u64,
    ) -> (client: EmailClient)
        ensures
            client.base_url() == url@,
            client.sender() == sender@,
            client.authorization_token() == authorization_token@,
            client.timeout() == timeout_milliseconds,
    {
        EmailClient { base_url: url, sender, authorization_token, timeout_milliseconds }
    }

    /// The time that one request may take, in milliseconds.
    pub fn timeout_milliseconds(&self) -> (t: u64)
        ensures
            t == self.timeout(),
    {
        self.timeout_milliseconds
    }

    /// The request that sends one message to `recipient`.
    pub fn request(
        &self,
        recipient: &SubscriberEmail,
        subject: &str,
        html_content: &str,
        text_content: &str,
    ) -> (request: EmailRequest)
        ensures
            request.url@ == endpoint_url(self.base_url()),
            request.authorization_token@ == self.authorization_token(),
            request.timeout_milliseconds == self.timeout(),
            request.body.from@ == self.sender(),
            request.body.to@ == recipient@,
            request.body.subject@ == subject@,
            request.body.html_body@ == html_content@,
            request.body.text_body@ == text_content@,
    {
        let mut url = self.base_url.clone();
        url.append("/email");
        EmailRequest {
            url,
            authorization_token: self.authorization_token.clone(),
            timeout_milliseconds: self.timeout_milliseconds,
            body: SendEmailRequest {
                from: self.sender.clone(),
                to: String::from_str(recipient.as_ref()),
                subject: String::from_str(subject),
                html_body: String::from_str(html_content),
                text_body: String::from_str(text_content),
            },
        }
    }
}

} // verus!
