//! The operator's command: which request it is, its parameters, and the
//! seller's address `pubkey@host:port`.
use vstd::prelude::*;
use crate::decimal::parsed_unsigned;

verus! {

/// The requests that the operator's command accepts.
#[derive(Clone, Copy, Debug, PartialEq, Eq, Structural)]
pub enum BuyRequestTypes {
    Help,
    Buy,
    Dryrun,
    GetInfo,
    GetOrder,
}

/// Bad input to the operator's command.
#[derive(Clone, Copy, Debug, PartialEq, Eq, Structural)]
pub enum InvalidParameters {
    Amount,
    Blocks,
    Uri,
    ChannelType,
    OrderId,
}

/// Why a seller address was refused.
#[derive(Clone, Copy, Debug, PartialEq, Eq, Structural)]
pub enum UriError {
    /// Not exactly one `@`.
    InvalidFormat,
    /// The part before `@` is no public key.
    InvalidPubkey,
    /// Not exactly one `:` after the `@`.
    InvalidHostPort,
    /// The port is no 16-bit number.
    InvalidPort,
}

/// A seller's address.
#[derive(Clone, Debug)]
pub struct Uri {
    /// The node's public key, as hex text.
    pub pubkey: String,
    pub host: String,
    pub port: u16,
}

/// What the parameters of a purchase come to.
#[derive(Clone, Debug)]
pub struct BuyParams {
    pub amount: u64,
    pub blocks: u64,
    pub uri: String,
    pub announce_channel: bool,
}

/// The lowercase form of a text, as `str::to_lowercase` gives it.
pub uninterp spec fn lower_of(s: Seq<char>) -> Seq<char>;

/// Whether a text is a public key that the node's key type accepts.
pub uninterp spec fn pubkey_text_valid(s: Seq<char>) -> bool;

/// Relies on `str::to_lowercase`: the result depends on the characters alone.
#[verifier::external_body]
fn lowercase(s: &str) -> (r: String)
    ensures
        r@ == lower_of(s@),
{
    s.to_lowercase()
}

/// Relies on the `FromStr` of cln_rpc's `PublicKey` (secp256k1's): whether the
/// text parses as a public key; this depends on the text alone.
#[verifier::external_body]
fn is_valid_pubkey(s: &str) -> (r: bool)
    ensures
        r == pubkey_text_valid(s@),
{
    <cln_rpc::primitives::PublicKey as std::str::FromStr>::from_str(s).is_ok()
}

/// The request named by a text already in lowercase.
pub open spec fn buy_request_type_of(t: Seq<char>) -> Option<BuyRequestTypes> {
    if t == "help"@ {
        Some(BuyRequestTypes::Help)
    } else if t == "buy"@ {
        Some(BuyRequestTypes::Buy)
    } else if t == "getinfo"@ {
        Some(BuyRequestTypes::GetInfo)
    } else if t == "getorder"@ {
        Some(BuyRequestTypes::GetOrder)
    } else {
        None
    }
}

/// Names a request by a text already in lowercase.
pub fn buy_request_type_of_lowercase(t: &String) -> (r: Option<BuyRequestTypes>)
    ensures
        r == buy_request_type_of(t@),
{
    if *t == "help".to_string() {
        Some(BuyRequestTypes::Help)
    } else if *t == "buy".to_string() {
        Some(BuyRequestTypes::Buy)
    } else if *t == "getinfo".to_string() {
        Some(BuyRequestTypes::GetInfo)
    } else if *t == "getorder".to_string() {
        Some(BuyRequestTypes::GetOrder)
    } else {
        None
    }
}

/// Names a request by its text, in any case.
pub fn str_to_buy_request_type(s: &str) -> (r: Option<BuyRequestTypes>)
    ensures
        r == buy_request_type_of(lower_of(s@)),
{
    let t = lowercase(s);
    buy_request_type_of_lowercase(&t)
}

/// Whether a channel type, already in lowercase, asks for an announced channel.
pub open spec fn announce_of(t: Seq<char>) -> Option<bool> {
    if t == "private"@ {
        Some(false)
    } else if t == "public"@ {
        Some(true)
    } else {
        None
    }
}

/// Reads a channel type already in lowercase.
pub fn announce_of_lowercase(t: &String) -> (r: Option<bool>)
    ensures
        r == announce_of(t@),
{
    if *t == "private".to_string() {
        Some(false)
    } else if *t == "public".to_string() {
        Some(true)
    } else {
        None
    }
}

/// Whether the channel bought is announced: public unless asked otherwise;
/// the type is `private` or `public`, in any case.
pub fn channel_announcement(channel_type: Option<&str>) -> (r: Result<bool, InvalidParameters>)
    ensures
        match channel_type {
            None => r == Ok::<bool, InvalidParameters>(true),
            Some(t) => match announce_of(lower_of(t@)) {
                Some(b) => r == Ok::<bool, InvalidParameters>(b),
                None => r == Err::<bool, InvalidParameters>(InvalidParameters::ChannelType),
            },
        },
{
    match channel_type {
        None => Ok(true),
        Some(t) => {
            let folded = lowercase(t);
            match announce_of_lowercase(&folded) {
                Some(b) => Ok(b),
                None => Err(InvalidParameters::ChannelType),
            }
        },
    }
}

/// Checks the parameters of a purchase, in order: amount, blocks, address,
/// channel type.
pub fn parse_buy_request(
    amount: Option<u64>,
    blocks: Option<u64>,
    uri: Option<String>,
    channel_type: Option<&str>,
) -> (r: Result<BuyParams, InvalidParameters>)
    ensures
        amount is None ==> r == Err::<BuyParams, InvalidParameters>(InvalidParameters::Amount),
        amount is Some && blocks is None ==> r == Err::<BuyParams, InvalidParameters>(
            InvalidParameters::Blocks,
        ),
        amount is Some && blocks is Some && uri is None ==> r == Err::<BuyParams, InvalidParameters>(
            InvalidParameters::Uri,
        ),
        amount is Some && blocks is Some && uri is Some ==> match channel_type {
            Some(t) if announce_of(lower_of(t@)) is None => r == Err::<BuyParams, InvalidParameters>(
                InvalidParameters::ChannelType,
            ),
            _ => r matches Ok(p) && p.amount == amount->0 && p.blocks == blocks->0 && p.uri
                == uri->0 && p.announce_channel == match channel_type {
                None => true,
                Some(t) => announce_of(lower_of(t@))->0,
            },
        },
{
    let amount = match amount {
        Some(a) => a,
        None => return Err(InvalidParameters::Amount),
    };
    let blocks = match blocks {
        Some(b) => b,
        None => return Err(InvalidParameters::Blocks),
    };
    let uri = match uri {
        Some(u) => u,
        None => return Err(InvalidParameters::Uri),
    };
    let announce_channel = match channel_announcement(channel_type) {
        Ok(b) => b,
        Err(e) => return Err(e),
    };
    Ok(BuyParams { amount, blocks, uri, announce_channel })
}

/// The characters that Unicode gives the White_Space property.
pub open spec fn unicode_white_space(c: char) -> bool {
    ('\u{9}' <= c && c <= '\u{d}') || c == ' ' || c == '\u{85}' || c == '\u{a0}' || c
        == '\u{1680}' || ('\u{2000}' <= c && c <= '\u{200a}') || c == '\u{2028}' || c
        == '\u{2029}' || c == '\u{202f}' || c == '\u{205f}' || c == '\u{3000}'
}

/// What is cut from both ends of a public key's text: quotes and white space.
pub open spec fn key_padding(c: char) -> bool {
    c == '"' || unicode_white_space(c)
}

pub open spec fn trim_start(s: Seq<char>) -> Seq<char>
    decreases s.len(),
{
    if s.len() > 0 && key_padding(s[0]) {
        trim_start(s.drop_first())
    } else {
        s
    }
}

pub open spec fn trim_end(s: Seq<char>) -> Seq<char>
    decreases s.len(),
{
    if s.len() > 0 && key_padding(s.last()) {
        trim_end(s.drop_last())
    } else {
        s
    }
}

/// A text with its padding cut from both ends.
pub open spec fn trimmed(s: Seq<char>) -> Seq<char> {
    trim_end(trim_start(s))
}

/// Relies on `char::is_whitespace`: the Unicode White_Space property.
#[verifier::external_body]
fn is_whitespace(c: char) -> (r: bool)
    ensures
        r == unicode_white_space(c),
{
    c.is_whitespace()
}

/// Whether a character is cut from the ends of a public key's text.
pub fn is_key_padding(c: char) -> (r: bool)
    ensures
        r == key_padding(c),
{
    c == '"' || is_whitespace(c)
}

/// Relies on `str::trim_matches`: every leading and every trailing character
/// that the predicate holds of is removed, nothing else.
#[verifier::external_body]
fn trim_key_padding(s: &str) -> (r: String)
    ensures
        r@ == trimmed(s@),
{
    s.trim_matches(|c: char| is_key_padding(c)).to_string()
}

/// Relies on u16's `FromStr`: an optional `+` followed by only ASCII digits,
/// at least one, whose value fits in `u16`; anything else is an error.
#[verifier::external_body]
fn parse_u16(s: &str) -> (r: Option<u16>)
    ensures
        match r {
            Some(n) => parsed_unsigned(s@, u16::MAX as nat) == Some(n as nat),
            None => parsed_unsigned(s@, u16::MAX as nat) is None,
        },
{
    s.parse::<u16>().ok()
}

/// A separator occurs exactly once in the text.
pub open spec fn occurs_once(s: Seq<char>, c: char) -> bool {
    exists|i: int|
        0 <= i < s.len() && #[trigger] s[i] == c && forall|j: int|
            0 <= j < s.len() && #[trigger] s[j] == c ==> j == i
}

/// The parts before and after a separator that occurs exactly once.
pub open spec fn split_once_exact(s: Seq<char>, c: char) -> Option<(Seq<char>, Seq<char>)> {
    if occurs_once(s, c) {
        let i = choose|i: int| 0 <= i < s.len() && #[trigger] s[i] == c;
        Some((s.subrange(0, i), s.subrange(i + 1, s.len() as int)))
    } else {
        None
    }
}

/// Splits a text at a separator that it holds exactly once.
pub fn split_at_only(s: &str, c: char) -> (r: Option<(String, String)>)
    ensures
        match r {
            Some((a, b)) => split_once_exact(s@, c) == Some((a@, b@)),
            None => split_once_exact(s@, c) is None,
        },
{
    let n = s.unicode_len();
    let mut first: Option<usize> = None;
    let mut i: usize = 0;
    while i < n
        invariant
            n == s@.len(),
            i <= n,
            match first {
                None => forall|j: int| 0 <= j < i ==> s@[j] != c,
                Some(f) => f < i && s@[f as int] == c && forall|j: int|
                    0 <= j < i && j != f ==> s@[j] != c,
            },
        decreases n - i,
    {
        if s.get_char(i) == c {
            match first {
                None => {
                    first = Some(i);
                },
                Some(f) => {
                    assert(!occurs_once(s@, c)) by {
                        if occurs_once(s@, c) {
                            let k = choose|k: int|
                                0 <= k < s@.len() && #[trigger] s@[k] == c && forall|j: int|
                                    0 <= j < s@.len() && #[trigger] s@[j] == c ==> j == k;
                            assert(s@[f as int] == c);
                            assert(s@[i as int] == c);
                        }
                    }
                    return None;
                },
            }
        }
        i = i + 1;
    }
    match first {
        None => {
            assert(!occurs_once(s@, c));
            None
        },
        Some(f) => {
            assert(occurs_once(s@, c)) by {
                assert(s@[f as int] == c);
            }
            proof {
                let k = choose|k: int| 0 <= k < s@.len() && #[trigger] s@[k] == c;
                assert(k == f);
            }
            let a = s.substring_char(0, f).to_string();
            let b = s.substring_char(f + 1, n).to_string();
            Some((a, b))
        },
    }
}

/// What an address `pubkey@host:port` decodes to: the key's text with quotes
/// and white space cut from its ends, the host, and the port.
pub open spec fn uri_decoded(s: Seq<char>) -> Result<(Seq<char>, Seq<char>, u16), UriError> {
    match split_once_exact(s, '@') {
        None => Err(UriError::InvalidFormat),
        Some((k, hp)) => if !pubkey_text_valid(trimmed(k)) {
            Err(UriError::InvalidPubkey)
        } else {
            match split_once_exact(hp, ':') {
                None => Err(UriError::InvalidHostPort),
                Some((h, p)) => match parsed_unsigned(p, u16::MAX as nat) {
                    None => Err(UriError::InvalidPort),
                    Some(n) => Ok((trimmed(k), h, n as u16)),
                },
            }
        },
    }
}

/// Decodes a seller's address `pubkey@host:port`.
pub fn decode_uri(s: &str) -> (r: Result<Uri, UriError>)
    ensures
        match r {
            Ok(u) => uri_decoded(s@) == Ok::<(Seq<char>, Seq<char>, u16), UriError>(
                (u.pubkey@, u.host@, u.port),
            ),
            Err(e) => uri_decoded(s@) == Err::<(Seq<char>, Seq<char>, u16), UriError>(e),
        },
{
    let (key_part, host_port) = match split_at_only(s, '@') {
        Some(parts) => parts,
        None => return Err(UriError::InvalidFormat),
    };
    let pubkey = trim_key_padding(key_part.as_str());
    if !is_valid_pubkey(pubkey.as_str()) {
        return Err(UriError::InvalidPubkey);
    }
    let (host, port_text) = match split_at_only(host_port.as_str(), ':') {
        Some(parts) => parts,
        None => return Err(UriError::InvalidHostPort),
    };
    let port = match parse_u16(port_text.as_str()) {
        Some(p) => p,
        None => return Err(UriError::InvalidPort),
    };
    Ok(Uri { pubkey, host, port })
}

} // verus!
