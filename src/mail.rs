use vstd::prelude::*;
use vstd::string::*;

use crate::config::SmtpConfig;

verus! {

pub const VERIFY_PATH: &'static str = "/verify-email?token=";

pub const VERIFICATION_SUBJECT: &'static str = "Verify your email address";

pub const BODY_OPEN: &'static str = "
        <html>
        <body>
            <h2>Welcome! Please verify your email</h2>
            <p>Thank you for registering. Please click the link below to verify your email address:</p>
            <p><a href=\"";

pub const BODY_LINK: &'static str = "\" style=\"background-color: #4CAF50; color: white; padding: 14px 20px; text-decoration: none; display: inline-block;\">Verify Email</a></p>
            <p>Or copy and paste this link in your browser:</p>
            <p>";

pub const BODY_CODE: &'static str = "</p>
            <p>Your verification code is: <strong>";

pub const BODY_CLOSE: &'static str = "</strong></p>
            <p>This link will expire in 24 hours.</p>
            <br>
            <p>If you did not create an account, please ignore this email.</p>
        </body>
        </html>
        ";

/// The link that confirms an address: the application's URL, the
/// verification path, and the code as its query.
pub open spec fn verification_link(app_url: Seq<char>, code: Seq<char>) -> Seq<char> {
    app_url + VERIFY_PATH@ + code
}

/// The HTML body of the verification mail: the link, twice, and the code.
pub open spec fn verification_body(link: Seq<char>, code: Seq<char>) -> Seq<char> {
    BODY_OPEN@ + link + BODY_LINK@ + link + BODY_CODE@ + code + BODY_CLOSE@
}

/// A verification mail, ready for the mail transport.
#[derive(Debug)]
pub struct VerificationMail {
    pub from: String,
    pub to: String,
    pub subject: String,
    pub html_body: String,
}

pub fn verification_url(app_url: &str, code: &str) -> (r: String)
    ensures
        r@ == verification_link(app_url@, code@),
{
    let mut s = app_url.to_owned();
    s.append(VERIFY_PATH);
    s.append(code);
    s
}

/// Renders the verification mail that carries `code` to `to_email`.
pub fn compose_verification_email(config: &SmtpConfig, to_email: &str, code: &str) -> (r: VerificationMail)
    ensures
        r.from@ == config.from_email@,
        r.to@ == to_email@,
        r.subject@ == VERIFICATION_SUBJECT@,
        r.html_body@ == verification_body(verification_link(config.app_url@, code@), code@),
{
    let link = verification_url(config.app_url.as_str(), code);
    let mut body = BODY_OPEN.to_owned();
    body.append(link.as_str());
    body.append(BODY_LINK);
    body.append(link.as_str());
    body.append(BODY_CODE);
    body.append(code);
    body.append(BODY_CLOSE);
    VerificationMail {
        from: config.from_email.clone(),
        to: to_email.to_owned(),
        subject: VERIFICATION_SUBJECT.to_owned(),
        html_body: body,
    }
}

} // verus!
