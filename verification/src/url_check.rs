//! URLs, and which of them a subscription may be downloaded from.
use vstd::prelude::*;

use crate::failure::{refused, told, Failure, FailureText};
use crate::text::{chars_of, opt_text, same_text};

verus! {

/// A URL, taken apart.
#[derive(Debug)]
pub struct UrlParts {
    /// The scheme, in lower case.
    pub scheme: String,
    /// Whether it has no path that another URL could be resolved against.
    pub cannot_be_a_base: bool,
    /// The host, where there is one.
    pub host: Option<String>,
    /// The user name; empty where there is none.
    pub username: String,
    /// The password, where there is one.
    pub password: Option<String>,
    /// What follows the number sign, where there is one.
    pub fragment: Option<String>,
    /// The whole URL, normalized.
    pub text: String,
}

/// What [`UrlParts`] hold.
pub ghost struct UrlText {
    pub scheme: Seq<char>,
    pub cannot_be_a_base: bool,
    pub host: Option<Seq<char>>,
    pub username: Seq<char>,
    pub password: Option<Seq<char>>,
    pub fragment: Option<Seq<char>>,
    pub text: Seq<char>,
}

impl View for UrlParts {
    type V = UrlText;

    open spec fn view(&self) -> UrlText {
        UrlText {
            scheme: self.scheme@,
            cannot_be_a_base: self.cannot_be_a_base,
            host: opt_text(self.host),
            username: self.username@,
            password: opt_text(self.password),
            fragment: opt_text(self.fragment),
            text: self.text@,
        }
    }
}

/// The URL that `url::Url::parse` reads from a text, taken apart by the
/// accessors of `url::Url`, or the text of its error.
pub uninterp spec fn url_parse(text: Seq<char>) -> Result<UrlText, Seq<char>>;

/// `url::Url::parse`, with what `scheme`, `cannot_be_a_base`, `host_str`,
/// `username`, `password`, `fragment` and `as_str` give of the URL, or the text
/// of the error. All of it depends on the text alone.
#[verifier::external_body]
pub(crate) fn parse_url(text: &str) -> (r: Result<UrlParts, String>)
    ensures
        match r {
            Ok(parts) => url_parse(text@) == Ok::<UrlText, Seq<char>>(parts@),
            Err(reason) => url_parse(text@) == Err::<UrlText, Seq<char>>(reason@),
        },
{
    let url = url::Url::parse(text).map_err(|error| error.to_string())?;
    Ok(UrlParts {
        scheme: url.scheme().to_owned(),
        cannot_be_a_base: url.cannot_be_a_base(),
        host: url.host_str().map(str::to_owned),
        username: url.username().to_owned(),
        password: url.password().map(str::to_owned),
        fragment: url.fragment().map(str::to_owned),
        text: url.as_str().to_owned(),
    })
}

/// The control characters of Unicode.
pub open spec fn is_control(c: char) -> bool {
    (c as u32) <= 0x1F || 0x7F <= (c as u32) <= 0x9F
}

/// Whether a character would end or alter a quoted value of a curl
/// configuration.
pub open spec fn breaks_curl_config(c: char) -> bool {
    is_control(c) || c == '"' || c == '\\'
}

/// Whether no character of a text would end or alter a quoted value of a curl
/// configuration.
pub open spec fn fits_curl_config(text: Seq<char>) -> bool {
    forall|i: int| 0 <= i < text.len() ==> !breaks_curl_config(#[trigger] text[i])
}

/// Whether no character of a text would end or alter a quoted value of a curl
/// configuration.
fn quotes_in_curl_config(text: &str) -> (r: bool)
    ensures
        r == fits_curl_config(text@),
{
    let chars = chars_of(text);
    for i in 0..chars.len()
        invariant
            chars@ == text@,
            forall|j: int| 0 <= j < i ==> !breaks_curl_config(#[trigger] text@[j]),
    {
        let c = chars[i];
        let u: u32 = c as u32;
        if u <= 0x1F || (0x7F <= u && u <= 0x9F) || c == '"' || c == '\\' {
            proof {
                assert(breaks_curl_config(text@[i as int]));
            }
            return false;
        }
    }
    true
}

/// Why a subscription must not be downloaded from a URL, given the text of it
/// and what the parser made of that; `None` where it may be.
pub open spec fn url_objection(raw: Seq<char>, parsed: Result<UrlText, Seq<char>>) -> Option<
    FailureText,
> {
    match parsed {
        Err(reason) => Some(told("Subscription secret is not a valid URL"@, reason)),
        Ok(url) => if url.scheme != "https"@ {
            Some(refused("Subscription URL must use HTTPS"@))
        } else if url.cannot_be_a_base || url.host is None {
            Some(refused("Subscription URL must have a host"@))
        } else if url.username.len() > 0 || url.password is Some || url.fragment is Some {
            Some(refused("Subscription URL must not contain userinfo or a fragment"@))
        } else if !fits_curl_config(raw) {
            Some(
                refused("Subscription URL contains characters unsupported by curl config input"@),
            )
        } else {
            None
        },
    }
}

/// The view of the outcome of parsing a URL.
pub open spec fn parsed_text(parsed: Result<UrlParts, String>) -> Result<UrlText, Seq<char>> {
    match parsed {
        Ok(parts) => Ok(parts@),
        Err(reason) => Err(reason@),
    }
}

/// Judges a URL that a subscription is to be downloaded from, given what the
/// parser made of it.
pub fn judge_subscription_url(raw: &str, parsed: Result<UrlParts, String>) -> (r: Result<
    (),
    Failure,
>)
    ensures
        match r {
            Ok(_) => url_objection(raw@, parsed_text(parsed)) is None,
            Err(failure) => url_objection(raw@, parsed_text(parsed)) == Some(failure@),
        },
{
    let url = match parsed {
        Ok(url) => url,
        Err(reason) => {
            return Err(Failure::told("Subscription secret is not a valid URL", reason));
        },
    };
    if !same_text(url.scheme.as_str(), "https") {
        return Err(Failure::refused("Subscription URL must use HTTPS"));
    }
    if url.cannot_be_a_base || url.host.is_none() {
        return Err(Failure::refused("Subscription URL must have a host"));
    }
    if !url.username.as_str().is_empty() || url.password.is_some() || url.fragment.is_some() {
        return Err(
            Failure::refused("Subscription URL must not contain userinfo or a fragment"),
        );
    }
    if !quotes_in_curl_config(raw) {
        return Err(
            Failure::refused(
                "Subscription URL contains characters unsupported by curl config input",
            ),
        );
    }
    Ok(())
}

/// Decides whether a subscription may be downloaded from a URL.
pub fn check_subscription_url(raw: &str) -> (r: Result<(), Failure>)
    ensures
        match r {
            Ok(_) => url_objection(raw@, url_parse(raw@)) is None,
            Err(failure) => url_objection(raw@, url_parse(raw@)) == Some(failure@),
        },
{
    judge_subscription_url(raw, parse_url(raw))
}

} // verus!
