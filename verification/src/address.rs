//! Absolute URLs, validated once by the `url` crate's parser and then held
//! as text.

use vstd::prelude::*;

verus! {

/// The error type of the `url` crate's parser. Nothing is read from it.
#[verifier::external_type_specification]
#[verifier::external_body]
pub struct ExParseError(url::ParseError);

/// What `url::Url::parse` makes of `input`: the serialization of the URL it
/// returns, or `None` where it returns an error.
pub uninterp spec fn url_serialization(input: Seq<char>) -> Option<Seq<char>>;

/// The normal form of `input` as an absolute URL, or `None` where `input` is
/// not one. A text without a colon has no scheme and is never a URL; on any
/// other text the parser decides.
pub open spec fn parsed(input: Seq<char>) -> Option<Seq<char>> {
    if input.contains(':') {
        url_serialization(input)
    } else {
        None
    }
}

/// Whether `text` is the normal form of some absolute URL.
pub open spec fn is_normal_form(text: Seq<char>) -> bool {
    exists|input: Seq<char>| #[trigger] parsed(input) == Some(text)
}

/// Calls `url::Url::parse` on `input` and turns the URL it returns into its
/// serialization (`String::from`, which moves the text out of the `Url`).
///
/// Trusted: the outcome is the one named by [`url_serialization`], and the
/// parser returns an error whenever `input` holds no colon, since it then
/// finds no scheme and has no base URL to fall back on.
#[verifier::external_body]
fn parse_url(input: &str) -> (r: Result<String, url::ParseError>)
    ensures
        url_serialization(input@) == (match r {
            Ok(text) => Some(text@),
            Err(_) => None,
        }),
        !input@.contains(':') ==> r is Err,
{
    match url::Url::parse(input) {
        Ok(url) => Ok(String::from(url)),
        Err(e) => Err(e),
    }
}

/// An absolute URL in normal form.
///
/// A value can only be made by [`AbsoluteUrl::parse`], so the text it holds
/// is always one that the parser produced.
#[derive(Debug, PartialEq, Eq)]
pub struct AbsoluteUrl {
    text: String,
}

impl View for AbsoluteUrl {
    type V = Seq<char>;

    closed spec fn view(&self) -> Seq<char> {
        self.text@
    }
}

impl AbsoluteUrl {
    #[verifier::type_invariant]
    spec fn well_formed(self) -> bool {
        is_normal_form(self.text@)
    }

    /// Parses `input` as an absolute URL. Succeeds exactly where `input` is
    /// one, and then holds its normal form.
    pub fn parse(input: &str) -> (r: Option<AbsoluteUrl>)
        ensures
            r is Some <==> parsed(input@) is Some,
            r matches Some(url) ==> parsed(input@) == Some(url@),
    {
        match parse_url(input) {
            Ok(text) => {
                assert(parsed(input@) == Some(text@));
                Some(AbsoluteUrl { text })
            },
            Err(_) => None,
        }
    }

    /// The URL as text.
    pub fn as_str(&self) -> (s: &str)
        ensures
            s@ == self@,
            is_normal_form(self@),
    {
        proof {
            use_type_invariant(self);
        }
        self.text.as_str()
    }
}

} // verus!
