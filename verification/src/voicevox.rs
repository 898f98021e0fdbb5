use vstd::prelude::*;
use vstd::utf8::encode_utf8;

verus! {

/// The VOICEVOX voices the worker uses.
#[derive(PartialEq, Eq, Structural)]
pub enum VoiceVoxSpeaker {
    ZundaNormal,
}

impl VoiceVoxSpeaker {
    /// The style id of the voice in the VOICEVOX engine.
    pub open spec fn spec_id(&self) -> Seq<char> {
        match self {
            VoiceVoxSpeaker::ZundaNormal => seq!['3'],
        }
    }

    /// The style id of the voice in the VOICEVOX engine (`3` for Zundamon, normal).
    pub fn id(&self) -> (id: &'static str)
        ensures
            id@ == self.spec_id(),
    {
        proof {
            reveal_strlit("3");
        }
        match self {
            VoiceVoxSpeaker::ZundaNormal => "3",
        }
    }
}

/// A byte `urlencoding` leaves as it is: ASCII letters, digits and `-._~`.
pub open spec fn url_unreserved(b: u8) -> bool {
    ||| (0x30 <= b && b <= 0x39)
    ||| (0x41 <= b && b <= 0x5a)
    ||| (0x61 <= b && b <= 0x7a)
    ||| b == 0x2d
    ||| b == 0x2e
    ||| b == 0x5f
    ||| b == 0x7e
}

/// The upper-case hexadecimal digit of `d < 16`.
pub open spec fn hex_digit(d: u8) -> char {
    seq!['0', '1', '2', '3', '4', '5', '6', '7', '8', '9', 'A', 'B', 'C', 'D', 'E', 'F'][d as int]
}

/// One byte, percent-encoded unless it is unreserved.
pub open spec fn percent_byte(b: u8) -> Seq<char> {
    if url_unreserved(b) {
        seq![b as char]
    } else {
        seq!['%', hex_digit(b / 16), hex_digit(b % 16)]
    }
}

/// Percent-encoding of a byte string, byte by byte.
pub open spec fn percent_encode(bytes: Seq<u8>) -> Seq<char>
    decreases bytes.len(),
{
    if bytes.len() == 0 {
        Seq::empty()
    } else {
        percent_byte(bytes[0]) + percent_encode(bytes.drop_first())
    }
}

/// `urlencoding::encode`: the UTF-8 bytes of `text`, each percent-encoded
/// (`%` and two upper-case hex digits) unless it is an ASCII letter, digit or
/// one of `-._~`, as the crate documents and its source does.
#[verifier::external_body]
fn url_encode(text: &str) -> (encoded: String)
    ensures
        encoded@ == percent_encode(encode_utf8(text@)),
{
    urlencoding::encode(text).into_owned()
}

/// `http://localhost:50021`, where the engine is looked for when none is configured.
pub open spec fn default_endpoint() -> Seq<char> {
    "http://localhost:50021"@
}

/// The engine's base URL: the configured one, else the local default.
pub fn voicevox_endpoint(configured: Option<String>) -> (endpoint: String)
    ensures
        configured matches Some(c) ==> endpoint@ == c@,
        configured is None ==> endpoint@ == default_endpoint(),
{
    match configured {
        Some(c) => c,
        None => "http://localhost:50021".to_owned(),
    }
}

/// `<endpoint>/version`
pub fn version_url(endpoint: &str) -> (url: String)
    ensures
        url@ == endpoint@ + "/version"@,
{
    let mut url = endpoint.to_owned();
    url.append("/version");
    url
}

/// `<endpoint>/audio_query?text=<text, percent-encoded>&speaker=<id>`
pub fn audio_query_url(endpoint: &str, text: &str, speaker: &VoiceVoxSpeaker) -> (url: String)
    ensures
        url@ == endpoint@ + "/audio_query?text="@ + percent_encode(encode_utf8(text@)) + "&speaker="@
            + speaker.spec_id(),
{
    let mut url = endpoint.to_owned();
    url.append("/audio_query?text=");
    let encoded = url_encode(text);
    url.append(encoded.as_str());
    url.append("&speaker=");
    url.append(speaker.id());
    url
}

/// `<endpoint>/synthesis?speaker=<id>`
pub fn synthesis_url(endpoint: &str, speaker: &VoiceVoxSpeaker) -> (url: String)
    ensures
        url@ == endpoint@ + "/synthesis?speaker="@ + speaker.spec_id(),
{
    let mut url = endpoint.to_owned();
    url.append("/synthesis?speaker=");
    url.append(speaker.id());
    url
}

/// The query URL for voice `speaker_id` given as text, as a generator
/// named by a speaker URN asks for it.
pub fn speaker_query_url(endpoint: &str, text: &str, speaker_id: &str) -> (url: String)
    ensures
        url@ == endpoint@ + "/audio_query?text="@ + percent_encode(encode_utf8(text@)) + "&speaker="@ + speaker_id@,
{
    let mut url = endpoint.to_owned();
    url.append("/audio_query?text=");
    let encoded = url_encode(text);
    url.append(encoded.as_str());
    url.append("&speaker=");
    url.append(speaker_id);
    url
}

/// The synthesis URL for voice `speaker_id` given as text.
pub fn speaker_synthesis_url(endpoint: &str, speaker_id: &str) -> (url: String)
    ensures
        url@ == endpoint@ + "/synthesis?speaker="@ + speaker_id@,
{
    let mut url = endpoint.to_owned();
    url.append("/synthesis?speaker=");
    url.append(speaker_id);
    url
}

/// What percent-encoding makes of a text only holds unreserved ASCII and
/// `%`-escapes, so it can stand in a query string.
pub proof fn law_percent_encoding_is_query_safe(bytes: Seq<u8>, i: int)
    requires
        0 <= i < percent_encode(bytes).len(),
    ensures
        percent_encode(bytes)[i] == '%' || ('0' <= percent_encode(bytes)[i] <= '9')
            || ('A' <= percent_encode(bytes)[i] <= 'Z') || ('a' <= percent_encode(bytes)[i] <= 'z')
            || percent_encode(bytes)[i] == '-' || percent_encode(bytes)[i] == '.'
            || percent_encode(bytes)[i] == '_' || percent_encode(bytes)[i] == '~',
    decreases bytes.len(),
{
    let head = percent_byte(bytes[0]);
    let tail = percent_encode(bytes.drop_first());
    if i < head.len() {
        let b = bytes[0];
        if url_unreserved(b) {
            assert(head[i] == b as char);
        } else {
            assert(b / 16 < 16 && b % 16 < 16);
        }
    } else {
        law_percent_encoding_is_query_safe(bytes.drop_first(), i - head.len());
        assert(percent_encode(bytes)[i] == tail[i - head.len()]);
    }
}

} // verus!
