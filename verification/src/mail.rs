//! The outbound mail that the workflow operations ask for. The engine decides
//! whether and what to send; a mail service delivers it.
use vstd::prelude::*;
use vstd::string::StringExecFns;

verus! {

/// A mail for the mail service to deliver.
#[derive(Debug)]
pub struct MailNewProps {
    pub request_id: i64,
    pub destination: String,
    pub topic: String,
    pub title: String,
    pub content: String,
}

/// Why the mail service did not deliver a mail.
#[derive(Clone, Copy, Debug, PartialEq, Eq, Structural)]
pub enum MailError {
    /// The destination's server refused the mail.
    DestinationBounced,
    /// The mail service does not send to this destination.
    DestinationProhibited,
    /// Any other failure of the mail service.
    Other,
}

/// Whether `m` is the mail to `destination` with the given texts.
pub open spec fn is_mail(
    m: MailNewProps,
    destination: Seq<char>,
    topic: Seq<char>,
    title: Seq<char>,
    content: Seq<char>,
) -> bool {
    &&& m.request_id == 0
    &&& m.destination@ == destination
    &&& m.topic@ == topic
    &&& m.title@ == title
    &&& m.content@ == content
}

/// The lines that every mail with a link carries.
pub open spec fn link_notice() -> Seq<char> {
    "<p>If you did not make this request, then feel free to ignore.</p>"@
        + "<p>This link is valid for up to 15 minutes.</p>"@
        + "<p>Do not share this link with others.</p>"@
}

/// The title of the mail that asks a parent for permission.
pub open spec fn parent_permission_title(site_external_url: Seq<char>, user_name: Seq<char>) -> Seq<
    char,
> {
    site_external_url + ": Parent Permission For "@ + user_name
}

/// The text of the mail that asks a parent for permission.
pub open spec fn parent_permission_content(
    site_external_url: Seq<char>,
    user_name: Seq<char>,
    verification_challenge_key: Seq<char>,
) -> Seq<char> {
    "<p>Your child, <code>"@ + user_name + "</code>, has requested permission to use: <code>"@
        + site_external_url + "</code></p>"@ + link_notice() + "<p>Verification link: "@
        + site_external_url + "/parent_confirm?verificationChallengeKey="@
        + verification_challenge_key + "</p>"@
}

/// The title of the mail that asks to confirm an address.
pub open spec fn email_verification_title(site_external_url: Seq<char>) -> Seq<char> {
    site_external_url + ": Email Verification"@
}

/// The text of the mail that asks to confirm an address.
pub open spec fn email_verification_content(
    site_external_url: Seq<char>,
    user_name: Seq<char>,
    verification_challenge_key: Seq<char>,
) -> Seq<char> {
    "<p>This email has been sent to verify for: <code>"@ + user_name + "</code> </p>"@
        + link_notice() + "<p>Verification link: "@ + site_external_url
        + "/email_confirm?verificationChallengeKey="@ + verification_challenge_key + "</p>"@
}

/// The title of the mail that carries the link of a password reset.
pub open spec fn password_reset_title(site_external_url: Seq<char>) -> Seq<char> {
    site_external_url + ": Password Reset"@
}

/// The text of the mail that carries the link of a password reset.
pub open spec fn password_reset_content(
    site_external_url: Seq<char>,
    password_reset_key: Seq<char>,
) -> Seq<char> {
    "<p>Requested password reset service: </p>"@ + link_notice() + "<p>Password change link: "@
        + site_external_url + "/reset_password?resetKey="@ + password_reset_key + "</p>"@
}

/// Whether `m` asks a parent at `target_email` for permission.
pub open spec fn is_parent_permission_mail(
    m: MailNewProps,
    target_email: Seq<char>,
    user_name: Seq<char>,
    site_external_url: Seq<char>,
    verification_challenge_key: Seq<char>,
) -> bool {
    is_mail(
        m,
        target_email,
        "parent_permission"@,
        parent_permission_title(site_external_url, user_name),
        parent_permission_content(site_external_url, user_name, verification_challenge_key),
    )
}

/// Whether `m` asks the owner of `target_email` to confirm the address.
pub open spec fn is_email_verification_mail(
    m: MailNewProps,
    target_email: Seq<char>,
    user_name: Seq<char>,
    site_external_url: Seq<char>,
    verification_challenge_key: Seq<char>,
) -> bool {
    is_mail(
        m,
        target_email,
        "verification_challenge"@,
        email_verification_title(site_external_url),
        email_verification_content(site_external_url, user_name, verification_challenge_key),
    )
}

/// Whether `m` carries the link of a password reset to `target_email`.
pub open spec fn is_password_reset_mail(
    m: MailNewProps,
    target_email: Seq<char>,
    site_external_url: Seq<char>,
    password_reset_key: Seq<char>,
) -> bool {
    is_mail(
        m,
        target_email,
        "password_reset"@,
        password_reset_title(site_external_url),
        password_reset_content(site_external_url, password_reset_key),
    )
}

fn append_link_notice(content: &mut String)
    ensures
        final(content)@ == old(content)@ + link_notice(),
{
    content.append("<p>If you did not make this request, then feel free to ignore.</p>");
    content.append("<p>This link is valid for up to 15 minutes.</p>");
    content.append("<p>Do not share this link with others.</p>");
    assert(content@ == old(content)@ + link_notice());
}

/// Appends to the outbox the mail that asks a parent for permission.
pub fn send_parent_permission_email(
    outbox: &mut Vec<MailNewProps>,
    target_email: &str,
    user_name: &str,
    site_external_url: &str,
    verification_challenge_key: &str,
)
    ensures
        final(outbox)@.len() == old(outbox)@.len() + 1,
        final(outbox)@.drop_last() == old(outbox)@,
        is_parent_permission_mail(
            final(outbox)@.last(),
            target_email@,
            user_name@,
            site_external_url@,
            verification_challenge_key@,
        ),
{
    let mut title = String::from_str(site_external_url);
    title.append(": Parent Permission For ");
    title.append(user_name);
    let mut content = String::from_str("<p>Your child, <code>");
    content.append(user_name);
    content.append("</code>, has requested permission to use: <code>");
    content.append(site_external_url);
    content.append("</code></p>");
    append_link_notice(&mut content);
    content.append("<p>Verification link: ");
    content.append(site_external_url);
    content.append("/parent_confirm?verificationChallengeKey=");
    content.append(verification_challenge_key);
    content.append("</p>");
    outbox.push(
        MailNewProps {
            request_id: 0,
            destination: String::from_str(target_email),
            topic: String::from_str("parent_permission"),
            title,
            content,
        },
    );
    assert(final(outbox)@.drop_last() == old(outbox)@);
}

/// Appends to the outbox the mail that asks the owner of an address to
/// confirm it.
pub fn send_email_verification_email(
    outbox: &mut Vec<MailNewProps>,
    target_email: &str,
    user_name: &str,
    site_external_url: &str,
    verification_challenge_key: &str,
)
    ensures
        final(outbox)@.len() == old(outbox)@.len() + 1,
        final(outbox)@.drop_last() == old(outbox)@,
        is_email_verification_mail(
            final(outbox)@.last(),
            target_email@,
            user_name@,
            site_external_url@,
            verification_challenge_key@,
        ),
{
    let mut title = String::from_str(site_external_url);
    title.append(": Email Verification");
    let mut content = String::from_str("<p>This email has been sent to verify for: <code>");
    content.append(user_name);
    content.append("</code> </p>");
    append_link_notice(&mut content);
    content.append("<p>Verification link: ");
    content.append(site_external_url);
    content.append("/email_confirm?verificationChallengeKey=");
    content.append(verification_challenge_key);
    content.append("</p>");
    outbox.push(
        MailNewProps {
            request_id: 0,
            destination: String::from_str(target_email),
            topic: String::from_str("verification_challenge"),
            title,
            content,
        },
    );
    assert(final(outbox)@.drop_last() == old(outbox)@);
}

/// Appends to the outbox the mail that carries the link of a password reset.
pub fn send_password_reset_email(
    outbox: &mut Vec<MailNewProps>,
    target_email: &str,
    site_external_url: &str,
    password_reset_key: &str,
)
    ensures
        final(outbox)@.len() == old(outbox)@.len() + 1,
        final(outbox)@.drop_last() == old(outbox)@,
        is_password_reset_mail(
            final(outbox)@.last(),
            target_email@,
            site_external_url@,
            password_reset_key@,
        ),
{
    let mut title = String::from_str(site_external_url);
    title.append(": Password Reset");
    let mut content = String::from_str("<p>Requested password reset service: </p>");
    append_link_notice(&mut content);
    content.append("<p>Password change link: ");
    content.append(site_external_url);
    content.append("/reset_password?resetKey=");
    content.append(password_reset_key);
    content.append("</p>");
    outbox.push(
        MailNewProps {
            request_id: 0,
            destination: String::from_str(target_email),
            topic: String::from_str("password_reset"),
            title,
            content,
        },
    );
    assert(final(outbox)@.drop_last() == old(outbox)@);
}

} // verus!
