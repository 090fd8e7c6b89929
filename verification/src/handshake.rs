//! The server's answer to the handshake.

use vstd::prelude::*;
use vstd::string::*;

use crate::text;
use crate::text::{format_debug, from_utf8_lossy};
use crate::version;
use crate::version::{
    is_older, parse_version, try_parse_version, VersionError,
    SUPPORTED_PROTOCOL_VERSIONS,
};

verus! {

/// What the server's answer starts with. The version that it speaks follows.
pub const GREETING: &'static str = "Hegel/";

/// Why a session does not come about.
#[derive(Debug)]
pub enum HandshakeError {
    /// The answer does not start as it has to.
    BadResponse { decoded: String },
    /// What follows the greeting is no version.
    BadVersion { version: String, error: VersionError },
    /// The server speaks a version that a session cannot.
    Unsupported { version: String },
}

/// Whether the answer `decoded` starts as it has to.
pub open spec fn greets(decoded: Seq<char>) -> bool {
    GREETING@.is_prefix_of(decoded)
}

/// What follows the greeting in `decoded`.
pub open spec fn offered(decoded: Seq<char>) -> Seq<char> {
    decoded.skip(GREETING@.len() as int)
}

/// Whether a session comes about on the answer `decoded`, in version `v`.
pub open spec fn agrees_on(decoded: Seq<char>, v: (u32, u32)) -> bool {
    &&& greets(decoded)
    &&& version::version_of(offered(decoded)) == Ok::<(u32, u32), VersionError>(v)
    &&& version::supported(v)
}

/// Whether `error` is what stands against a session on the answer `decoded`.
pub open spec fn fails_with(decoded: Seq<char>, error: HandshakeError) -> bool {
    match error {
        HandshakeError::BadResponse { decoded: text } => !greets(decoded) && text@ == decoded,
        HandshakeError::BadVersion { version, error } => {
            &&& greets(decoded)
            &&& version@ == offered(decoded)
            &&& version::version_of(version@) == Err::<(u32, u32), VersionError>(error)
        },
        HandshakeError::Unsupported { version } => {
            &&& greets(decoded)
            &&& version@ == offered(decoded)
            &&& version::version_of(version@) matches Ok(v)
            &&& !version::supported(v)
        },
    }
}

/// Decides on a decoded answer of the server.
pub fn check_greeting(decoded: &str) -> (res: Result<(u32, u32), HandshakeError>)
    ensures
        match res {
            Ok(v) => agrees_on(decoded@, v),
            Err(error) => fails_with(decoded@, error),
        },
{
    let length: usize = decoded.unicode_len();
    let start: usize = GREETING.unicode_len();
    if length < start || decoded.substring_char(0, start).to_owned() != GREETING.to_owned() {
        proof {
            if greets(decoded@) {
                assert(decoded@.subrange(0, start as int) =~= GREETING@);
            }
        }
        return Err(HandshakeError::BadResponse { decoded: decoded.to_owned() });
    }
    let offer: &str = decoded.substring_char(start, length);
    assert(offer@ =~= offered(decoded@));
    match try_parse_version(offer) {
        Err(error) => Err(HandshakeError::BadVersion { version: offer.to_owned(), error }),
        Ok(v) => {
            proof {
                version::law_supported_range();
            }
            let lowest = parse_version(SUPPORTED_PROTOCOL_VERSIONS.0);
            let highest = parse_version(SUPPORTED_PROTOCOL_VERSIONS.1);
            if is_older(v, lowest) || is_older(highest, v) {
                Err(HandshakeError::Unsupported { version: offer.to_owned() })
            } else {
                Ok(v)
            }
        },
    }
}

/// Decides on the bytes that the server answered.
pub fn check_handshake(response: &[u8]) -> (res: Result<(u32, u32), HandshakeError>)
    ensures
        match res {
            Ok(v) => agrees_on(text::utf8_lossy(response@), v),
            Err(error) => fails_with(text::utf8_lossy(response@), error),
        },
        forall|v: (u32, u32)|
            res == Ok::<(u32, u32), HandshakeError>(v) <==> vstd::utf8::valid_utf8(response@)
                && #[trigger] agrees_on(vstd::utf8::decode_utf8(response@), v),
{
    let decoded = from_utf8_lossy(response);
    proof {
        if decoded@.contains('\u{FFFD}') && greets(decoded@) && version::version_of(
            offered(decoded@),
        ) is Ok {
            let i = choose|i: int| 0 <= i < decoded@.len() && decoded@[i] == '\u{FFFD}';
            reveal_strlit("Hegel/");
            if i < 6 {
                assert(GREETING@[i] == decoded@[i]);
            } else {
                assert(offered(decoded@)[i - 6] == '\u{FFFD}');
                version::lemma_version_characters(offered(decoded@), i - 6);
            }
        }
    }
    check_greeting(decoded.as_str())
}

impl HandshakeError {
    /// Whether the server process is killed. One that sends a malformed version is
    /// left alone.
    pub fn kills_server(&self) -> (res: bool)
        ensures
            res == !(self is BadVersion),
    {
        match self {
            HandshakeError::BadVersion { .. } => false,
            _ => true,
        }
    }

    /// What `message` says.
    pub open spec fn text(self) -> Seq<char> {
        match self {
            HandshakeError::BadResponse { decoded } => "Bad handshake response: "@ + text::debug_text(
                decoded@,
            ),
            HandshakeError::BadVersion { version, error } => error.text(version@),
            HandshakeError::Unsupported { version } => "hegel-rust supports protocol versions "@
                + SUPPORTED_PROTOCOL_VERSIONS.0@ + " through "@ + SUPPORTED_PROTOCOL_VERSIONS.1@
                + ", but the connected server is using protocol version "@ + version@
                + ". Upgrading hegel-rust or downgrading hegel-core might help."@,
        }
    }

    /// Says why there is no session.
    pub fn message(&self) -> (res: String)
        ensures
            res@ == self.text(),
    {
        match self {
            HandshakeError::BadResponse { decoded } => "Bad handshake response: ".to_owned().concat(
                format_debug(decoded.as_str()).as_str(),
            ),
            HandshakeError::BadVersion { version, error } => error.message(version.as_str()),
            HandshakeError::Unsupported { version } => "hegel-rust supports protocol versions "
                .to_owned()
                .concat(SUPPORTED_PROTOCOL_VERSIONS.0)
                .concat(" through ")
                .concat(SUPPORTED_PROTOCOL_VERSIONS.1)
                .concat(", but the connected server is using protocol version ")
                .concat(version.as_str())
                .concat(". Upgrading hegel-rust or downgrading hegel-core might help."),
        }
    }
}

/// A server that greets and offers a version, written in the usual way, gets a
/// session if and only if that version is supported.
pub proof fn law_offer_decides(v: (u32, u32))
    ensures
        agrees_on(GREETING@ + version::version_text(v), v) <==> version::supported(v),
        forall|w: (u32, u32)|
            agrees_on(GREETING@ + version::version_text(v), w) ==> w == v,
{
    let decoded = GREETING@ + version::version_text(v);
    assert(offered(decoded) =~= version::version_text(v));
    version::law_version_text_reads_back(v);
}

/// A session comes about in version 0.14, or not at all.
pub proof fn law_one_version(decoded: Seq<char>, v: (u32, u32))
    requires
        agrees_on(decoded, v),
    ensures
        v == (0u32, 14u32),
{
    version::law_supported_range();
}

/// A session comes about if and only if the answer is the greeting and behind it, up to its
/// end, a text that reads as version 0.14.
pub proof fn law_agreement(decoded: Seq<char>, v: (u32, u32))
    ensures
        agrees_on(decoded, v) <==> decoded.len() >= 6 && decoded.take(6) == "Hegel/"@ && v == (
            0u32,
            14u32,
        ) && version::version_of(decoded.skip(6)) == Ok::<(u32, u32), VersionError>((0, 14)),
{
    reveal_strlit("Hegel/");
    version::law_supported_range();
    lemma_greets(decoded);
}

/// An answer greets where its first six characters are the greeting.
proof fn lemma_greets(decoded: Seq<char>)
    ensures
        GREETING@.len() == 6,
        greets(decoded) <==> decoded.len() >= 6 && decoded.take(6) == "Hegel/"@,
{
    reveal_strlit("Hegel/");
    if greets(decoded) {
        assert(decoded.take(6) =~= "Hegel/"@);
    }
    if decoded.len() >= 6 && decoded.take(6) == "Hegel/"@ {
        assert forall|i: int| 0 <= i < 6 implies GREETING@[i] == decoded[i] by {
            assert(decoded.take(6)[i] == decoded[i]);
        }
        assert(decoded.subrange(0, 6) =~= GREETING@);
    }
}

/// Why no session comes about: the answer does not greet, and is told as it came; or what
/// follows the greeting is no version, or is another one than 0.14, and is told.
pub proof fn law_refusal(decoded: Seq<char>, error: HandshakeError)
    ensures
        fails_with(decoded, error) <==> {
            let greeted = decoded.len() >= 6 && decoded.take(6) == "Hegel/"@;
            match error {
                HandshakeError::BadResponse { decoded: text } => !greeted && text@ == decoded,
                HandshakeError::BadVersion { version, error } => greeted && version@
                    == decoded.skip(6) && version::version_of(decoded.skip(6)) == Err::<
                    (u32, u32),
                    VersionError,
                >(error),
                HandshakeError::Unsupported { version } => greeted && version@ == decoded.skip(6)
                    && version::version_of(decoded.skip(6)) is Ok && version::version_of(
                    decoded.skip(6),
                )->Ok_0 != (0u32, 14u32),
            }
        },
{
    lemma_greets(decoded);
    version::law_supported_range();
}

/// No answer both brings a session about and stands against it.
pub proof fn law_one_verdict(decoded: Seq<char>, v: (u32, u32), error: HandshakeError)
    ensures
        !(agrees_on(decoded, v) && fails_with(decoded, error)),
{
}

/// Why there is no session is said with what the server answered.
pub proof fn law_handshake_messages(error: HandshakeError)
    ensures
        match error {
            HandshakeError::BadResponse { decoded } => error.text() == "Bad handshake response: "@
                + text::debug_text(decoded@),
            HandshakeError::BadVersion { version, error: wrong } => error.text() == wrong.text(
                version@,
            ),
            HandshakeError::Unsupported { version } => error.text()
                == "hegel-rust supports protocol versions "@ + "0.14"@ + " through "@ + "0.14"@
                + ", but the connected server is using protocol version "@ + version@
                + ". Upgrading hegel-rust or downgrading hegel-core might help."@,
        },
{
}

} // verus!
