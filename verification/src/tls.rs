//! Certificates for the producer endpoint: whether to generate them, for
//! which names, and how to read one back.
//!
//! Nothing here touches the disk. The caller says what it found there, and
//! writes what it is handed.

use crate::config::TlsConfig;
use crate::text::{begins_with, chars_of, has_prefix};
use vstd::prelude::*;

verus! {

/// Why certificates could not be had or read.
#[derive(Debug)]
pub enum TlsError {
    /// The files are not there and generating them is switched off.
    CertificatesMissing,
    /// The generator gave up.
    GenerationFailed { reason: String },
    /// A character that is no base64 digit stands before the padding.
    InvalidBase64,
}

impl TlsError {
    /// Renders the error for a log line.
    pub fn message(&self) -> (rendered: String)
        ensures
            self is CertificatesMissing ==> rendered@
                == "TLS certificates not found and auto_generate is disabled"@,
            self is GenerationFailed ==> rendered == self->reason,
            self is InvalidBase64 ==> rendered@ == "Invalid base64 character"@,
    {
        match self {
            TlsError::CertificatesMissing => "TLS certificates not found and auto_generate is disabled".to_owned(),
            TlsError::GenerationFailed { reason } => reason.clone(),
            TlsError::InvalidBase64 => "Invalid base64 character".to_owned(),
        }
    }
}

/// What is to be done about the certificate files.
#[derive(Debug)]
pub enum CertificateStep {
    /// Both files are there: use them.
    UseExisting { cert_path: String, key_path: String },
    /// Generate a certificate and a key and write them to these paths.
    Generate { cert_path: String, key_path: String },
}

/// What is to be done, given whether the two files exist.
pub open spec fn certificate_step(config: TlsConfig, cert_exists: bool, key_exists: bool) -> Result<
    CertificateStep,
    TlsError,
> {
    if cert_exists && key_exists {
        Ok(CertificateStep::UseExisting { cert_path: config.cert_path, key_path: config.key_path })
    } else if !config.auto_generate {
        Err(TlsError::CertificatesMissing)
    } else {
        Ok(CertificateStep::Generate { cert_path: config.cert_path, key_path: config.key_path })
    }
}

/// Decides whether the configured certificate files are used as they are,
/// generated, or missing for good. `cert_exists` and `key_exists` say what
/// the caller found on disk.
pub fn ensure_certificates(config: &TlsConfig, cert_exists: bool, key_exists: bool) -> (step: Result<
    CertificateStep,
    TlsError,
>)
    ensures
        step == certificate_step(*config, cert_exists, key_exists),
{
    if cert_exists && key_exists {
        return Ok(
            CertificateStep::UseExisting {
                cert_path: config.cert_path.clone(),
                key_path: config.key_path.clone(),
            },
        );
    }
    if !config.auto_generate {
        return Err(TlsError::CertificatesMissing);
    }
    Ok(
        CertificateStep::Generate {
            cert_path: config.cert_path.clone(),
            key_path: config.key_path.clone(),
        },
    )
}

// === Local addresses ===

/// One address of one network interface.
#[derive(Debug)]
pub struct NetworkInterface {
    pub name: String,
    pub address: String,
    pub is_loopback: bool,
}

/// `local_ip_address::list_afinet_netifas`: the addresses of this machine's
/// network interfaces, each with its interface's name, the address as text
/// and whether std's `IpAddr::is_loopback` holds of it; none where the
/// listing fails. What a machine has is not for the library to say, so
/// nothing is claimed of the value.
#[verifier::external_body]
fn list_interfaces() -> Vec<NetworkInterface> {
    match local_ip_address::list_afinet_netifas() {
        Ok(found) => found
            .into_iter()
            .map(|(name, ip)| NetworkInterface { name, address: ip.to_string(), is_loopback: ip.is_loopback() })
            .collect(),
        Err(_) => Vec::new(),
    }
}

/// Tells the addresses worth putting in a certificate: neither loopback nor
/// IPv6 link-local.
pub open spec fn routable_pred() -> spec_fn(NetworkInterface) -> bool {
    |interface: NetworkInterface| !interface.is_loopback && !begins_with(interface.address@, "fe80"@)
}

/// The addresses of `interfaces`, in order.
pub open spec fn addresses_of(interfaces: Seq<NetworkInterface>) -> Seq<String> {
    Seq::new(interfaces.len(), |i: int| interfaces[i].address)
}

/// The addresses among `interfaces` that are neither loopback nor link-local,
/// in order.
pub fn routable_addresses(interfaces: &Vec<NetworkInterface>) -> (addresses: Vec<String>)
    ensures
        addresses@ == addresses_of(interfaces@.filter(routable_pred())),
{
    let mut addresses: Vec<String> = Vec::new();
    let mut index: usize = 0;
    proof {
        reveal(Seq::filter);
        assert(interfaces@.take(0) =~= Seq::empty());
        assert(addresses@ =~= addresses_of(interfaces@.take(0).filter(routable_pred())));
    }
    while index < interfaces.len()
        invariant
            index <= interfaces@.len(),
            addresses@ == addresses_of(interfaces@.take(index as int).filter(routable_pred())),
        decreases interfaces@.len() - index,
    {
        let interface = &interfaces[index];
        proof {
            reveal(Seq::filter);
            assert(interfaces@.take(index + 1).drop_last() =~= interfaces@.take(index as int));
            assert(interfaces@.take(index + 1).last() == *interface);
        }
        if !interface.is_loopback && !has_prefix(interface.address.as_str(), "fe80") {
            addresses.push(interface.address.clone());
        }
        index = index + 1;
        assert(addresses@ =~= addresses_of(interfaces@.take(index as int).filter(routable_pred())));
    }
    assert(interfaces@.take(index as int) =~= interfaces@);
    addresses
}

/// The addresses of this machine that are neither loopback nor link-local.
pub fn get_local_ips() -> (addresses: Vec<String>)
    ensures
        exists|interfaces: Seq<NetworkInterface>|
            addresses@ == addresses_of(#[trigger] interfaces.filter(routable_pred())),
{
    let interfaces = list_interfaces();
    routable_addresses(&interfaces)
}

// === Subject alternative names ===

/// The texts of `names`, in order.
pub open spec fn texts(names: Seq<String>) -> Seq<Seq<char>> {
    Seq::new(names.len(), |i: int| names[i]@)
}

/// The names every certificate is valid for.
pub open spec fn loopback_names() -> Seq<Seq<char>> {
    seq!["localhost"@, "127.0.0.1"@, "::1"@]
}

/// The names a certificate is made for: the loopback names, then each local
/// address that is not among the names before it.
pub open spec fn alt_names(local_ips: Seq<Seq<char>>) -> Seq<Seq<char>>
    decreases local_ips.len(),
{
    if local_ips.len() == 0 {
        loopback_names()
    } else {
        let names = alt_names(local_ips.drop_last());
        if names.contains(local_ips.last()) {
            names
        } else {
            names.push(local_ips.last())
        }
    }
}

/// Whether `name` is among `names`.
fn holds_name(names: &Vec<String>, name: &str) -> (held: bool)
    ensures
        held == texts(names@).contains(name@),
{
    let wanted = name.to_owned();
    let mut index: usize = 0;
    while index < names.len()
        invariant
            wanted@ == name@,
            index <= names@.len(),
            forall|i: int| 0 <= i < index ==> texts(names@)[i] != name@,
        decreases names@.len() - index,
    {
        if names[index] == wanted {
            assert(texts(names@)[index as int] == name@);
            return true;
        }
        index = index + 1;
    }
    false
}

/// The subject alternative names of a certificate for this machine.
pub fn subject_alt_names(local_ips: &Vec<String>) -> (names: Vec<String>)
    ensures
        texts(names@) == alt_names(texts(local_ips@)),
{
    let mut names: Vec<String> = Vec::new();
    names.push("localhost".to_owned());
    names.push("127.0.0.1".to_owned());
    names.push("::1".to_owned());
    let mut index: usize = 0;
    proof {
        assert(texts(local_ips@).take(0) =~= Seq::empty());
        assert(texts(names@) =~= loopback_names());
    }
    while index < local_ips.len()
        invariant
            index <= local_ips@.len(),
            texts(names@) == alt_names(texts(local_ips@).take(index as int)),
        decreases local_ips@.len() - index,
    {
        let ip = &local_ips[index];
        proof {
            assert(texts(local_ips@).take(index + 1).drop_last() =~= texts(local_ips@).take(
                index as int,
            ));
            assert(texts(local_ips@).take(index + 1).last() == ip@);
        }
        if !holds_name(&names, ip.as_str()) {
            let ghost before = names@;
            names.push(ip.clone());
            assert(texts(names@) =~= texts(before).push(ip@));
        }
        index = index + 1;
    }
    assert(texts(local_ips@).take(index as int) =~= texts(local_ips@));
    names
}

// === Generation ===

/// `rcgen::Error`: why rcgen could not make a key or a certificate.
#[verifier::external_type_specification]
#[verifier::external_body]
pub struct ExGenerationError(rcgen::Error);

/// A certificate and its private key, each PEM-encoded.
#[derive(Debug)]
pub struct CertificatePem {
    pub certificate: String,
    pub private_key: String,
}

/// `rcgen::generate_simple_self_signed`, with the certificate rendered by
/// `Certificate::pem` and the key by `KeyPair::serialize_pem`: a new key pair
/// and a self-signed certificate for `names`. The key is drawn at random, so
/// nothing is claimed of the result.
#[verifier::external_body]
fn self_signed(names: Vec<String>) -> Result<CertificatePem, rcgen::Error> {
    let rcgen::CertifiedKey { cert, key_pair } = rcgen::generate_simple_self_signed(names)?;
    Ok(CertificatePem { certificate: cert.pem(), private_key: key_pair.serialize_pem() })
}

/// `rcgen::Error`'s `Display` impl: the error as text. The wording is
/// rcgen's; nothing is claimed of it.
#[verifier::external_body]
fn describe(error: &rcgen::Error) -> String {
    error.to_string()
}

/// What a generation comes to, given what the generator returned: its
/// certificate and key as they are, or a failure that carries its reason.
pub fn generation_outcome(returned: Result<CertificatePem, String>) -> (generated: Result<
    CertificatePem,
    TlsError,
>)
    ensures
        generated == match returned {
            Ok(pem) => Ok::<CertificatePem, TlsError>(pem),
            Err(reason) => Err::<CertificatePem, TlsError>(TlsError::GenerationFailed { reason }),
        },
{
    match returned {
        Ok(pem) => Ok(pem),
        Err(reason) => Err(TlsError::GenerationFailed { reason }),
    }
}

/// Generates a self-signed certificate and key for the loopback names and
/// the given local addresses. If the generator gives up, the error carries
/// its reason.
pub fn generate_certificates_for(local_ips: &Vec<String>) -> (generated: Result<CertificatePem, TlsError>)
    ensures
        generated is Err ==> generated->Err_0 is GenerationFailed,
{
    let names = subject_alt_names(local_ips);
    let returned = match self_signed(names) {
        Ok(pem) => Ok(pem),
        Err(error) => Err(describe(&error)),
    };
    generation_outcome(returned)
}

/// Generates a self-signed certificate and key for the loopback names and
/// this machine's routable addresses.
pub fn generate_certificates() -> (generated: Result<CertificatePem, TlsError>)
    ensures
        generated is Err ==> generated->Err_0 is GenerationFailed,
{
    let local_ips = get_local_ips();
    generate_certificates_for(&local_ips)
}

// === Reading a certificate back ===

/// Whether the decoder passes over `c`.
pub open spec fn is_blank(c: char) -> bool {
    c == '\n' || c == '\r' || c == ' '
}

/// The value of `c` as a base64 digit. Only the low byte of the character's
/// code is looked at.
pub open spec fn sextet(c: char) -> Option<u8> {
    let code = (c as u32) % 256;
    if 65 <= code <= 90 {
        Some((code - 65) as u8)
    } else if 97 <= code <= 122 {
        Some((code - 71) as u8)
    } else if 48 <= code <= 57 {
        Some((code + 4) as u8)
    } else if code == 43 {
        Some(62u8)
    } else if code == 47 {
        Some(63u8)
    } else {
        None
    }
}

/// The digits that `text` spells, blanks passed over; nothing if a character
/// is neither a blank nor a digit.
pub open spec fn digits_of(text: Seq<char>) -> Option<Seq<u8>>
    decreases text.len(),
{
    if text.len() == 0 {
        Some(Seq::empty())
    } else {
        match digits_of(text.drop_last()) {
            None => None,
            Some(digits) => if is_blank(text.last()) {
                Some(digits)
            } else {
                match sextet(text.last()) {
                    Some(digit) => Some(digits.push(digit)),
                    None => None,
                }
            },
        }
    }
}

/// Whether `index` is where the padding of `text` begins: at its first `=`,
/// or at its end if it has none.
pub open spec fn is_padding_start(text: Seq<char>, index: int) -> bool {
    &&& 0 <= index <= text.len()
    &&& index < text.len() ==> text[index] == '='
    &&& forall|j: int| 0 <= j < index ==> text[j] != '='
}

/// Where the padding of `text` begins.
pub open spec fn padding_start(text: Seq<char>) -> int {
    choose|index: int| is_padding_start(text, index)
}

/// The byte at `index` of the bytes that `digits` pack into, six bits to a
/// digit, most significant bit first.
pub open spec fn packed_byte(digits: Seq<u8>, index: int) -> u8 {
    let first = 8 * index / 6;
    let skipped = 8 * index % 6;
    let high = digits[first] as int;
    let low = digits[first + 1] as int;
    if skipped == 0 {
        (high * 4 + low / 16) as u8
    } else if skipped == 2 {
        ((high % 16) * 16 + low / 4) as u8
    } else {
        ((high % 4) * 64 + low) as u8
    }
}

/// The bytes that `digits` pack into: as many as are complete.
pub open spec fn packed(digits: Seq<u8>) -> Seq<u8> {
    Seq::new((digits.len() * 6 / 8) as nat, |index: int| packed_byte(digits, index))
}

/// What `text` decodes to as base64: the bytes packed from the digits before
/// the padding, or nothing if something other than a digit or a blank stands
/// there.
pub open spec fn base64_value(text: Seq<char>) -> Option<Seq<u8>> {
    match digits_of(text.take(padding_start(text))) {
        Some(digits) => Some(packed(digits)),
        None => None,
    }
}

/// Once a prefix of a text holds a character that is no digit, so does every
/// longer prefix.
proof fn lemma_no_digits_extends(text: Seq<char>, shorter: int, longer: int)
    requires
        0 <= shorter <= longer <= text.len(),
        digits_of(text.take(shorter)) is None,
    ensures
        digits_of(text.take(longer)) is None,
    decreases longer - shorter,
{
    if shorter < longer {
        lemma_no_digits_extends(text, shorter, longer - 1);
        assert(text.take(longer).drop_last() =~= text.take(longer - 1));
    }
}

/// The value of `c` as a base64 digit.
fn digit_value(c: char) -> (value: Option<u8>)
    ensures
        value == sextet(c),
        value matches Some(digit) ==> digit < 64,
{
    let code: u32 = (c as u32) % 256;
    if 65 <= code && code <= 90 {
        Some((code - 65) as u8)
    } else if 97 <= code && code <= 122 {
        Some((code - 71) as u8)
    } else if 48 <= code && code <= 57 {
        Some((code + 4) as u8)
    } else if code == 43 {
        Some(62)
    } else if code == 47 {
        Some(63)
    } else {
        None
    }
}

/// Decodes the base64 text that `chars` spell.
pub fn decode_chars(chars: &Vec<char>) -> (decoded: Result<Vec<u8>, TlsError>)
    ensures
        match base64_value(chars@) {
            Some(bytes) => decoded matches Ok(found) && found@ == bytes,
            None => decoded matches Err(TlsError::InvalidBase64),
        },
{
    let mut result: Vec<u8> = Vec::new();
    let mut buffer: u32 = 0;
    let mut bits: u32 = 0;
    let mut index: usize = 0;
    let ghost mut digits: Seq<u8> = Seq::empty();
    proof {
        assert(chars@.take(0) =~= Seq::empty());
        assert(result@ =~= packed(digits));
    }
    while index < chars.len()
        invariant
            index <= chars@.len(),
            forall|j: int| 0 <= j < index ==> chars@[j] != '=',
            digits_of(chars@.take(index as int)) == Some(digits),
            forall|i: int| 0 <= i < digits.len() ==> #[trigger] digits[i] < 64,
            result@ == packed(digits),
            bits == (6 * digits.len()) % 8,
            bits == 0 ==> buffer == 0,
            bits == 2 ==> digits.len() > 0 && buffer == digits.last() % 4,
            bits == 4 ==> digits.len() > 0 && buffer == digits.last() % 16,
            bits == 6 ==> digits.len() > 0 && buffer == digits.last(),
        ensures
            index <= chars@.len(),
            is_padding_start(chars@, index as int),
            digits_of(chars@.take(index as int)) == Some(digits),
            result@ == packed(digits),
        decreases chars@.len() - index,
    {
        let c = chars[index];
        if c == '=' {
            break ;
        }
        proof {
            assert(chars@.take(index + 1).drop_last() =~= chars@.take(index as int));
            assert(chars@.take(index + 1).last() == c);
        }
        if c == '\n' || c == '\r' || c == ' ' {
            index = index + 1;
            continue ;
        }
        let value = match digit_value(c) {
            Some(value) => value,
            None => {
                proof {
                    assert(digits_of(chars@.take(index + 1)) is None);
                    let start = padding_start(chars@);
                    assert(is_padding_start(chars@, chars@.len() as int) || exists|k: int|
                        is_padding_start(chars@, k)) by {
                        lemma_padding_start_exists(chars@, chars@.len() as int);
                    }
                    assert(is_padding_start(chars@, start));
                    assert(start > index);
                    lemma_no_digits_extends(chars@, index + 1, start);
                }
                return Err(TlsError::InvalidBase64);
            },
        };
        let ghost earlier = digits;
        let ghost held = buffer;
        let wide: u32 = value as u32;
        assert((buffer << 6) | wide == buffer * 64 + wide) by (bit_vector)
            requires
                buffer < 64,
                wide < 64,
        ;
        buffer = (buffer << 6) | wide;
        bits = bits + 6;
        proof {
            digits = earlier.push(value);
        }
        if bits >= 8 {
            bits = bits - 8;
            assert(bits == 0 ==> buffer >> bits == buffer) by (bit_vector);
            assert(bits == 2 ==> buffer >> bits == buffer / 4) by (bit_vector);
            assert(bits == 4 ==> buffer >> bits == buffer / 16) by (bit_vector);
            let byte: u8 = (buffer >> bits) as u8;
            result.push(byte);
            assert(bits <= 4 ==> (1u32 << bits) >= 1) by (bit_vector);
            let mask: u32 = (1u32 << bits) - 1;
            assert(bits == 0 ==> buffer & (((1u32 << bits) - 1) as u32) == 0) by (bit_vector);
            assert(bits == 2 ==> buffer & (((1u32 << bits) - 1) as u32) == buffer % 4) by (bit_vector);
            assert(bits == 4 ==> buffer & (((1u32 << bits) - 1) as u32) == buffer % 16) by (bit_vector);
            buffer = buffer & mask;
            proof {
                let at = result@.len() - 1;
                assert(packed(digits).len() == packed(earlier).len() + 1);
                assert(packed_byte(digits, at) == byte);
                assert forall|k: int| 0 <= k < at implies packed_byte(digits, k) == packed_byte(
                    earlier,
                    k,
                ) by {
                    assert(8 * k / 6 + 1 < earlier.len());
                }
                assert(result@ =~= packed(digits));
            }
        } else {
            proof {
                assert(packed(digits).len() == packed(earlier).len());
                assert forall|k: int| 0 <= k < packed(earlier).len() implies packed_byte(
                    digits,
                    k,
                ) == packed_byte(earlier, k) by {
                    assert(8 * k / 6 + 1 < earlier.len());
                }
                assert(result@ =~= packed(digits));
            }
        }
        index = index + 1;
    }
    proof {
        let start = padding_start(chars@);
        assert(is_padding_start(chars@, start));
        assert(start == index);
    }
    Ok(result)
}

/// Every text has a place where its padding begins.
proof fn lemma_padding_start_exists(text: Seq<char>, limit: int)
    requires
        0 <= limit <= text.len(),
        limit < text.len() ==> text[limit] == '=',
    ensures
        exists|index: int| is_padding_start(text, index),
    decreases limit,
{
    if exists|j: int| 0 <= j < limit && text[j] == '=' {
        let j = choose|j: int| 0 <= j < limit && text[j] == '=';
        lemma_padding_start_exists(text, j);
    } else {
        assert(is_padding_start(text, limit));
    }
}

/// Decodes base64 text: blanks are passed over, and decoding stops at the
/// first `=`.
pub fn base64_decode(input: &str) -> (decoded: Result<Vec<u8>, TlsError>)
    ensures
        match base64_value(input@) {
            Some(bytes) => decoded matches Ok(found) && found@ == bytes,
            None => decoded matches Err(TlsError::InvalidBase64),
        },
{
    let chars = chars_of(input);
    decode_chars(&chars)
}

/// Where the line begins that holds the character at `index`.
pub open spec fn line_start(text: Seq<char>, index: int) -> int
    decreases index,
{
    if index <= 0 {
        0
    } else if text[index - 1] == '\n' {
        index
    } else {
        line_start(text, index - 1)
    }
}

/// Whether the character at `index` stands in a line that begins with five
/// dashes, as the lines around a PEM body do.
pub open spec fn in_marker_line(text: Seq<char>, index: int) -> bool {
    begins_with(text.skip(line_start(text, index)), "-----"@)
}

/// The first `count` characters of `text`, without the line feeds and
/// without what stands in a marker line.
pub open spec fn pem_body_upto(text: Seq<char>, count: int) -> Seq<char>
    decreases count,
{
    if count <= 0 {
        Seq::empty()
    } else {
        let body = pem_body_upto(text, count - 1);
        let c = text[count - 1];
        if c == '\n' || in_marker_line(text, count - 1) {
            body
        } else {
            body.push(c)
        }
    }
}

/// The body of a PEM text: its lines, but for those that begin with five
/// dashes, put together.
pub open spec fn pem_body(text: Seq<char>) -> Seq<char> {
    pem_body_upto(text, text.len() as int)
}

/// Whether five dashes stand at `at`.
fn dashes_at(chars: &Vec<char>, at: usize) -> (found: bool)
    requires
        at <= chars@.len(),
    ensures
        found == begins_with(chars@.skip(at as int), "-----"@),
{
    proof {
        reveal_strlit("-----");
    }
    if chars.len() - at < 5 {
        return false;
    }
    let found = chars[at] == '-' && chars[at + 1] == '-' && chars[at + 2] == '-' && chars[at + 3]
        == '-' && chars[at + 4] == '-';
    proof {
        let tail = chars@.skip(at as int);
        let head = tail.subrange(0, 5);
        if found {
            assert(head =~= "-----"@);
        } else {
            assert(head[0] == tail[0] && head[1] == tail[1] && head[2] == tail[2] && head[3]
                == tail[3] && head[4] == tail[4]);
        }
    }
    found
}

/// The body of the PEM text that `chars` spell.
fn strip_markers(chars: &Vec<char>) -> (body: Vec<char>)
    ensures
        body@ == pem_body(chars@),
{
    let mut body: Vec<char> = Vec::new();
    let mut marker = false;
    let mut fresh_line = true;
    let mut index: usize = 0;
    while index < chars.len()
        invariant
            index <= chars@.len(),
            body@ == pem_body_upto(chars@, index as int),
            fresh_line == (index == 0 || chars@[index - 1] == '\n'),
            !fresh_line ==> marker == in_marker_line(chars@, index - 1),
        decreases chars@.len() - index,
    {
        if fresh_line {
            marker = dashes_at(chars, index);
        }
        assert(marker == in_marker_line(chars@, index as int));
        let c = chars[index];
        if c != '\n' && !marker {
            body.push(c);
        }
        fresh_line = c == '\n';
        index = index + 1;
    }
    body
}

/// Extracts the DER bytes from the text of a PEM file: its body, decoded as
/// base64.
pub fn get_certificate_der(pem_content: &str) -> (der: Result<Vec<u8>, TlsError>)
    ensures
        match base64_value(pem_body(pem_content@)) {
            Some(bytes) => der matches Ok(found) && found@ == bytes,
            None => der matches Err(TlsError::InvalidBase64),
        },
{
    let chars = chars_of(pem_content);
    let body = strip_markers(&chars);
    decode_chars(&body)
}

} // verus!
