//! Opening a URL with the program that the desktop associates with it.
//! Only web addresses are opened.

use crate::lifecycle::Platform;
use crate::text::str_is;
use crate::process::{failure_with, ErrorKind, Invocation, Launch, Step};
use crate::args::push_text;
use vstd::prelude::*;
use vstd::string::StringExecFns;

verus! {

/// What parsing `url` as an absolute URL gives: its scheme, or the reason
/// why it is no URL.
pub uninterp spec fn url_scheme(url: Seq<char>) -> Result<Seq<char>, Seq<char>>;

/// The texts of a result of strings.
pub open spec fn texts(r: Result<String, String>) -> Result<Seq<char>, Seq<char>> {
    match r {
        Ok(s) => Ok(s@),
        Err(e) => Err(e@),
    }
}

/// Parses `url` with `url::Url::parse` and reads its scheme with
/// `Url::scheme`; a URL that does not parse gives the parse error's
/// message. Trusted: the result is the named result `url_scheme`; nothing
/// is claimed about which text has which scheme.
#[verifier::external_body]
pub(crate) fn scheme_of(url: &str) -> (scheme: Result<String, String>)
    ensures
        texts(scheme) == url_scheme(url@),
{
    match url::Url::parse(url) {
        Ok(parsed) => Ok(parsed.scheme().to_string()),
        Err(e) => Err(e.to_string()),
    }
}

/// Why a URL with the given scheme, or without one, is not opened; `None`
/// where it is: the `http` and `https` schemes alone are allowed.
pub open spec fn refusal(scheme: Result<Seq<char>, Seq<char>>) -> Option<Seq<char>> {
    match scheme {
        Ok(s) => if s == "http"@ || s == "https"@ {
            None
        } else {
            Some("Invalid URL scheme: "@ + s + ". Only http/https are allowed."@)
        },
        Err(e) => Some("Invalid URL format: "@ + e),
    }
}

/// Decides from the scheme of a URL whether the URL may be opened.
pub fn check_scheme(scheme: &Result<String, String>) -> (refused: Option<String>)
    ensures
        refused.deep_view() == refusal(texts(*scheme)),
{
    match scheme {
        Ok(s) => {
            if str_is(s.as_str(), "http") || str_is(s.as_str(), "https") {
                None
            } else {
                let mut message = "Invalid URL scheme: ".to_owned();
                message.append(s.as_str());
                message.append(". Only http/https are allowed.");
                Some(message)
            }
        },
        Err(e) => {
            let mut message = "Invalid URL format: ".to_owned();
            message.append(e.as_str());
            Some(message)
        },
    }
}

/// The program that opens a URL on the desktop.
pub open spec fn opener(platform: Platform) -> Seq<char> {
    match platform {
        Platform::Linux => "xdg-open"@,
        Platform::MacOs => "open"@,
        Platform::Windows => "cmd"@,
    }
}

/// The arguments that have `opener` open `url`.
pub open spec fn opener_args(platform: Platform, url: Seq<char>) -> Seq<Seq<char>> {
    match platform {
        Platform::Windows => seq!["/C"@, "start"@, url],
        _ => seq![url],
    }
}

/// What opening a URL does next, given the scheme of the URL and, once
/// the opener was started, how that went. A URL that is refused ends the
/// operation before anything is started. The opener is started and not
/// waited for; the operation has succeeded when it could be started.
pub open spec fn open_step(
    step: Step<String>,
    scheme: Result<Seq<char>, Seq<char>>,
    url: Seq<char>,
    platform: Platform,
    launched: Option<Launch>,
) -> bool {
    match refusal(scheme) {
        Some(message) => step.fails(ErrorKind::Validation, message),
        None => match launched {
            None => step.launches(opener(platform), opener_args(platform, url), 0),
            Some(Launch::SpawnFailed(reason)) => step.fails(
                ErrorKind::Spawn,
                "Failed to open URL: "@ + reason@,
            ),
            Some(_) => step.gives("URL opened successfully"@),
        },
    }
}

/// Opens `url`, given its scheme. See `open_step`.
pub fn open_checked(
    scheme: &Result<String, String>,
    url: &str,
    platform: Platform,
    launched: Option<&Launch>,
) -> (step: Step<String>)
    ensures
        open_step(
            step,
            texts(*scheme),
            url@,
            platform,
            match launched {
                Some(l) => Some(*l),
                None => None,
            },
        ),
{
    match check_scheme(scheme) {
        Some(message) => {
            return Step::Done(
                Err(crate::process::TunnelError { kind: ErrorKind::Validation, message }),
            );
        },
        None => {},
    }
    match launched {
        None => {
            let mut args: Vec<String> = Vec::new();
            let program = match platform {
                Platform::Linux => "xdg-open",
                Platform::MacOs => "open",
                Platform::Windows => {
                    push_text(&mut args, "/C");
                    push_text(&mut args, "start");
                    "cmd"
                },
            };
            push_text(&mut args, url);
            assert(args.deep_view() =~= opener_args(platform, url@));
            Step::Launch(Invocation { program: program.to_owned(), args }, 0)
        },
        Some(Launch::SpawnFailed(reason)) => Step::Done(
            Err(failure_with(ErrorKind::Spawn, "Failed to open URL: ", reason.as_str())),
        ),
        Some(_) => Step::Done(Ok("URL opened successfully".to_owned())),
    }
}

/// Opens `url` with the desktop's opener, if it is a web address. See
/// `open_step`.
pub fn open_url(url: &str, platform: Platform, launched: Option<&Launch>) -> (step: Step<String>)
    ensures
        open_step(
            step,
            url_scheme(url@),
            url@,
            platform,
            match launched {
                Some(l) => Some(*l),
                None => None,
            },
        ),
{
    let scheme = scheme_of(url);
    open_checked(&scheme, url, platform, launched)
}

} // verus!
