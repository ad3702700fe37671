//! The texts of the mails and addresses that the booth sends out.

use vstd::prelude::*;
use crate::text::decimal;
use crate::text::push_decimal;
use crate::text::texts;

verus! {

/// The subject of the mail with a login code.
pub open spec fn otp_subject() -> Seq<char> {
    "Login Code for Portrait Booth"@
}

/// The body of the mail with the login code `code`.
pub open spec fn otp_body(code: Seq<char>) -> Seq<char> {
    "Your login code is: "@ + code
        + ".\nThis code will expire soon after which you will need to request a new login code."@
}

/// The subject of the mail that tells a customer that the portraits are
/// ready.
pub open spec fn processed_subject() -> Seq<char> {
    "Your portraits are ready"@
}

/// The paragraph with the link to the portrait at place `index`, counted
/// from 0 and shown from 1.
pub open spec fn link_paragraph(link: Seq<char>, index: nat) -> Seq<char> {
    "<p><a href=\""@ + link + "\">Portrait "@ + decimal(index + 1) + "</a></p>"@
}

/// The paragraphs with the links to the first `count` portraits.
pub open spec fn link_paragraphs(links: Seq<Seq<char>>, count: nat) -> Seq<char>
    decreases count,
{
    if count == 0 {
        Seq::empty()
    } else {
        link_paragraphs(links, (count - 1) as nat) + link_paragraph(
            links[count - 1],
            (count - 1) as nat,
        )
    }
}

/// The body of the mail that tells the customer `name` that the portraits
/// are ready, with a link to each.
pub open spec fn processed_body(
    name: Seq<char>,
    links: Seq<Seq<char>>,
    reply_to: Seq<char>,
    from_name: Seq<char>,
) -> Seq<char> {
    "\n<p>Dear "@ + name
        + ",</p>\n\n<p>Your portraits are ready.  To download your portraits, please click on the link(s) below.</p>\n<p><strong>The below links will expire in 5 days.</strong></p>\n\n"@
        + link_paragraphs(links, links.len())
        + "\n\n<p>Please download these portraits before the links expire. \nIf you have any questions about your portraits, please send an email to "@
        + reply_to
        + ".\nWe will try and get back with you within a few days.</p>\n\n<p>Please DO NOT respond to this email as this mailbox is not monitored.</p>\n\n<p>Regards,</p>\n\n<p>"@
        + from_name + "</p>\n"@
}

/// The address to which the payment gateway sends a customer back after a
/// payment: the address of the booth, the token of the order, and the place
/// where the gateway puts its number of the payment.
pub open spec fn confirmation_url(app_url: Seq<char>, order_ref: Seq<char>) -> Seq<char> {
    app_url + "/confirmation/"@ + order_ref + "/{CHECKOUT_SESSION_ID}"@
}

/// A text with `%2b` in place of every plus sign.
pub open spec fn plus_escaped(text: Seq<char>) -> Seq<char>
    decreases text.len(),
{
    if text.len() == 0 {
        Seq::empty()
    } else if text.last() == '+' {
        plus_escaped(text.drop_last()) + "%2b"@
    } else {
        plus_escaped(text.drop_last()).push(text.last())
    }
}

/// The page on which the person with the address `email` enters a login
/// code.
pub open spec fn otp_page_url(email: Seq<char>) -> Seq<char> {
    "/otp?email="@ + plus_escaped(email) + "&show_email=false"@
}

/// The subject of the mail with a login code.
pub fn otp_subject_for() -> (subject: String)
    ensures
        subject@ == otp_subject(),
{
    String::from_str("Login Code for Portrait Booth")
}

/// The body of the mail with the login code `code`.
pub fn otp_body_for(code: &str) -> (body: String)
    ensures
        body@ == otp_body(code@),
{
    let mut body = String::from_str("Your login code is: ");
    body.append(code);
    body.append(
        ".\nThis code will expire soon after which you will need to request a new login code.",
    );
    body
}

/// The subject of the mail that tells a customer that the portraits are
/// ready.
pub fn processed_subject_for() -> (subject: String)
    ensures
        subject@ == processed_subject(),
{
    String::from_str("Your portraits are ready")
}

/// The body of the mail that tells the customer `name` that the portraits
/// are ready, with a link to each of `links`. `reply_to` is the address for
/// questions, `from_name` the name that signs the mail.
pub fn processed_body_for(name: &str, links: &Vec<String>, reply_to: &str, from_name: &str) -> (body:
    String)
    ensures
        body@ == processed_body(name@, texts(links@), reply_to@, from_name@),
{
    let mut body = String::from_str("\n<p>Dear ");
    body.append(name);
    body.append(
        ",</p>\n\n<p>Your portraits are ready.  To download your portraits, please click on the link(s) below.</p>\n<p><strong>The below links will expire in 5 days.</strong></p>\n\n",
    );
    let ghost head = body@;
    let mut k: usize = 0;
    proof {
        assert(body@ =~= head + link_paragraphs(texts(links@), 0));
    }
    while k < links.len()
        invariant
            k <= links.len(),
            body@ == head + link_paragraphs(texts(links@), k as nat),
        decreases links.len() - k,
    {
        let ghost before = body@;
        body.append("<p><a href=\"");
        body.append(links[k].as_str());
        body.append("\">Portrait ");
        push_decimal(&mut body, k as u64 + 1);
        body.append("</a></p>");
        proof {
            assert(body@ =~= before + link_paragraph(links[k as int]@, k as nat));
            assert(texts(links@)[k as int] == links[k as int]@);
        }
        k += 1;
    }
    body.append(
        "\n\n<p>Please download these portraits before the links expire. \nIf you have any questions about your portraits, please send an email to ",
    );
    body.append(reply_to);
    body.append(
        ".\nWe will try and get back with you within a few days.</p>\n\n<p>Please DO NOT respond to this email as this mailbox is not monitored.</p>\n\n<p>Regards,</p>\n\n<p>",
    );
    body.append(from_name);
    body.append("</p>\n");
    body
}

/// The address to which the payment gateway sends a customer back after a
/// payment.
pub fn confirmation_url_for(app_url: &str, order_ref: &str) -> (url: String)
    ensures
        url@ == confirmation_url(app_url@, order_ref@),
{
    let mut url = String::from_str(app_url);
    url.append("/confirmation/");
    url.append(order_ref);
    url.append("/{CHECKOUT_SESSION_ID}");
    url
}

/// The page on which the person with the address `email` enters a login
/// code.
pub fn otp_page_url_for(email: &str) -> (url: String)
    ensures
        url@ == otp_page_url(email@),
{
    let mut url = String::from_str("/otp?email=");
    let ghost head = url@;
    let len = email.unicode_len();
    let mut k: usize = 0;
    proof {
        assert(email@.take(0) =~= Seq::<char>::empty());
        assert(url@ =~= head + plus_escaped(email@.take(0)));
    }
    while k < len
        invariant
            k <= len,
            len == email@.len(),
            url@ == head + plus_escaped(email@.take(k as int)),
        decreases len - k,
    {
        let c = email.get_char(k);
        let ghost before = url@;
        proof {
            assert(email@.take(k + 1).drop_last() =~= email@.take(k as int));
            assert(email@.take(k + 1).last() == c);
        }
        if c == '+' {
            url.append("%2b");
        } else {
            let piece = email.substring_char(k, k + 1);
            proof {
                assert(email@.subrange(k as int, k + 1) =~= seq![c]);
            }
            url.append(piece);
            proof {
                assert(url@ =~= before.push(c));
            }
        }
        proof {
            assert(url@ =~= head + plus_escaped(email@.take(k + 1)));
        }
        k += 1;
    }
    proof {
        assert(email@.take(k as int) =~= email@);
    }
    url.append("&show_email=false");
    url
}

} // verus!
