//! The mail dispatcher's part before the transport: the addresses are
//! checked, and the digest is put into an envelope for one recipient.

use crate::config::{AppConfig, AppConfigView};
use crate::post::{post_views, Post, PostView};
use crate::render::{digest, render};
use vstd::prelude::*;
use vstd::utf8::encode_utf8;

verus! {

/// The identifier that every message carries.
pub const MESSAGE_ID: &'static str = "id-00";

/// Why a digest did not reach its recipient.
#[derive(Clone, Copy, Debug, PartialEq, Eq, Structural)]
pub enum SendFailure {
    /// The sender's address is not a mail address.
    InvalidSender,
    /// The recipient's address is not a mail address.
    InvalidRecipient,
    /// The transport did not take the message.
    Transport,
}

/// One message ready for the transport: who sends it, the one recipient,
/// the message's identifier and its content.
#[derive(Clone, Debug, PartialEq, Eq)]
pub struct Envelope {
    pub sender: String,
    pub recipient: String,
    pub message_id: String,
    pub message: Vec<u8>,
}

/// An [`Envelope`] as contracts see it.
pub struct EnvelopeView {
    pub sender: Seq<char>,
    pub recipient: Seq<char>,
    pub message_id: Seq<char>,
    pub message: Seq<u8>,
}

impl View for Envelope {
    type V = EnvelopeView;

    open spec fn view(&self) -> EnvelopeView {
        EnvelopeView {
            sender: self.sender@,
            recipient: self.recipient@,
            message_id: self.message_id@,
            message: self.message@,
        }
    }
}

/// Whether `lettre::EmailAddress::new` accepts `address` as a mail address.
pub uninterp spec fn address_accepted(address: Seq<char>) -> bool;

impl EnvelopeView {
    /// Both addresses are mail addresses, and the identifier is the fixed one.
    pub open spec fn wf(self) -> bool {
        &&& address_accepted(self.sender)
        &&& address_accepted(self.recipient)
        &&& self.message_id == MESSAGE_ID@
    }
}

/// Asks `lettre::EmailAddress::new` whether `address` is a mail address.
/// That function looks at the text alone and returns an address or the
/// error that the text is none: the result here is whether it returned an
/// address, which [`address_accepted`] names.
#[verifier::external_body]
pub(crate) fn accepts_address(address: &str) -> (accepted: bool)
    ensures
        accepted == address_accepted(address@),
{
    lettre::EmailAddress::new(address.to_string()).is_ok()
}

/// The envelope of `body` from `sender` to `recipient`, where the two
/// addresses were found to be mail addresses or not: an address that is
/// none fails the message, the sender's first.
pub open spec fn assembled(
    sender: Seq<char>,
    sender_ok: bool,
    recipient: Seq<char>,
    recipient_ok: bool,
    body: Seq<char>,
) -> Result<EnvelopeView, SendFailure> {
    if !sender_ok {
        Err(SendFailure::InvalidSender)
    } else if !recipient_ok {
        Err(SendFailure::InvalidRecipient)
    } else {
        Ok(
            EnvelopeView {
                sender,
                recipient,
                message_id: MESSAGE_ID@,
                message: encode_utf8(body),
            },
        )
    }
}

/// What becomes of the digest of `posts` for the recipient `email`: the
/// envelope that carries it, or the failure of an address.
pub open spec fn prepared(
    email: Seq<char>,
    posts: Seq<PostView>,
    template: Seq<char>,
    cfg: AppConfigView,
) -> Result<EnvelopeView, SendFailure> {
    assembled(
        cfg.email_user,
        address_accepted(cfg.email_user),
        email,
        address_accepted(email),
        digest(posts, email, template, cfg.unsubscribe_url),
    )
}

/// Puts `body` into an envelope from `sender` to `recipient`, given
/// whether each address is a mail address.
pub fn assemble(
    sender: &str,
    sender_ok: bool,
    recipient: &str,
    recipient_ok: bool,
    body: &str,
) -> (res: Result<Envelope, SendFailure>)
    ensures
        match res {
            Ok(envelope) => assembled(sender@, sender_ok, recipient@, recipient_ok, body@) == Ok::<
                EnvelopeView,
                SendFailure,
            >(envelope@),
            Err(failure) => assembled(sender@, sender_ok, recipient@, recipient_ok, body@) == Err::<
                EnvelopeView,
                SendFailure,
            >(failure),
        },
{
    if !sender_ok {
        return Err(SendFailure::InvalidSender);
    }
    if !recipient_ok {
        return Err(SendFailure::InvalidRecipient);
    }
    Ok(
        Envelope {
            sender: String::from_str(sender),
            recipient: String::from_str(recipient),
            message_id: String::from_str(MESSAGE_ID),
            message: body.as_bytes_vec(),
        },
    )
}

/// Renders the digest of `posts` for the recipient `email` and puts it
/// into an envelope from the configured sender. An address that is no
/// mail address fails this message and nothing else.
pub fn prepare_news(email: &str, posts: &[Post], html: &str, cfg: &AppConfig) -> (res: Result<
    Envelope,
    SendFailure,
>)
    ensures
        match res {
            Ok(envelope) => prepared(email@, post_views(posts@), html@, cfg@) == Ok::<
                EnvelopeView,
                SendFailure,
            >(envelope@),
            Err(failure) => prepared(email@, post_views(posts@), html@, cfg@) == Err::<
                EnvelopeView,
                SendFailure,
            >(failure),
        },
{
    let message = render(posts, email, html, cfg.unsubscribe_url.as_str());
    let sender_ok = accepts_address(cfg.email_user.as_str());
    let recipient_ok = accepts_address(email);
    assemble(cfg.email_user.as_str(), sender_ok, email, recipient_ok, message.as_str())
}

/// What the transport's answer makes of one message.
pub fn delivery(taken: bool) -> (res: Result<(), SendFailure>)
    ensures
        res == if taken {
            Ok::<(), SendFailure>(())
        } else {
            Err::<(), SendFailure>(SendFailure::Transport)
        },
{
    if taken {
        Ok(())
    } else {
        Err(SendFailure::Transport)
    }
}

/// A digest is put into an envelope exactly when both addresses are mail
/// addresses; the envelope then names the configured sender and this one
/// recipient and carries the digest's bytes. Otherwise the failure tells
/// which address it was, the sender's first.
pub proof fn lemma_prepared(
    email: Seq<char>,
    posts: Seq<PostView>,
    template: Seq<char>,
    cfg: AppConfigView,
)
    ensures
        prepared(email, posts, template, cfg) is Ok <==> address_accepted(cfg.email_user)
            && address_accepted(email),
        prepared(email, posts, template, cfg) is Ok ==> {
            let envelope = prepared(email, posts, template, cfg)->Ok_0;
            &&& envelope.wf()
            &&& envelope.sender == cfg.email_user
            &&& envelope.recipient == email
            &&& envelope.message == encode_utf8(
                digest(posts, email, template, cfg.unsubscribe_url),
            )
        },
        !address_accepted(cfg.email_user) ==> prepared(email, posts, template, cfg) == Err::<
            EnvelopeView,
            SendFailure,
        >(SendFailure::InvalidSender),
        address_accepted(cfg.email_user) && !address_accepted(email) ==> prepared(
            email,
            posts,
            template,
            cfg,
        ) == Err::<EnvelopeView, SendFailure>(SendFailure::InvalidRecipient),
{
}

} // verus!
