//! Extraction of the Server Name Indication (SNI) hostname from the TCP
//! payload of a TLS ClientHello.
//!
//! The parser is a bounded, single-pass computation over a byte slice. It
//! skips the fixed-size record, handshake, version and random prefix, then
//! walks the variable-length fields (session id, cipher suites, compression
//! methods) by their declared lengths, and finally iterates the extension
//! list looking for a server_name extension. Every declared length is held
//! against the remaining slice before it is used: a length that would place a
//! read past the end of the buffer makes the whole parse yield `None`, never
//! an out-of-bounds access.

use vstd::prelude::*;

verus! {

use vstd::slice::slice_subrange;
use vstd::utf8::{valid_utf8, decode_utf8};

/// The byte at `pos`, or `None` when `pos` lies outside the sequence.
pub open spec fn byte_at(s: Seq<u8>, pos: int) -> Option<u8> {
    if 0 <= pos < s.len() {
        Some(s[pos])
    } else {
        None
    }
}

/// The big-endian 16-bit integer whose two bytes start at `pos`, or `None`
/// when they would not both lie inside the sequence.
pub open spec fn be_u16_at(s: Seq<u8>, pos: int) -> Option<u16> {
    if 0 <= pos && pos + 2 <= s.len() {
        Some((((s[pos] as int) * 256 + (s[pos + 1] as int)) as u16))
    } else {
        None
    }
}

/// Walks the ClientHello extension list and yields the byte range of the
/// first SNI hostname found.
///
/// `pos` is the absolute offset of the first extension, `e` the declared
/// total length of the extension block, and `ext_pos` the cursor within that
/// block. Each extension is a 2-byte type, a 2-byte body length, and a body.
/// A server_name extension (type 0) carries a 2-byte server-name-list
/// length, a 1-byte name type, a 2-byte name length and the name itself;
/// only the first entry is examined, and only a name of type 0 (host_name)
/// is taken. A read that would pass the end of the buffer yields `None`; an
/// entry of another type, or a server_name extension whose first entry is
/// not a host_name, is skipped by its declared length.
pub open spec fn spec_scan_extensions(s: Seq<u8>, pos: int, e: int, ext_pos: int) -> Option<
    (int, int),
>
    decreases e - ext_pos,
{
    if !(0 <= ext_pos < e) {
        None
    } else {
        match be_u16_at(s, pos + ext_pos) {
            None => None,
            Some(ext_type) => match be_u16_at(s, pos + ext_pos + 2) {
                None => None,
                Some(ext_len) => {
                    let body = pos + ext_pos + 4;
                    let next = ext_pos + 4 + ext_len;
                    if ext_type != 0 {
                        if next < e {
                            spec_scan_extensions(s, pos, e, next)
                        } else {
                            None
                        }
                    } else {
                        match be_u16_at(s, body) {
                            None => None,
                            Some(_list_len) => match byte_at(s, body + 2) {
                                None => None,
                                Some(name_type) => if name_type == 0 {
                                    match be_u16_at(s, body + 3) {
                                        None => None,
                                        Some(name_len) => if body + 5 + name_len <= s.len() {
                                            Some((body + 5, body + 5 + name_len))
                                        } else {
                                            None
                                        },
                                    }
                                } else {
                                    if next < e {
                                        spec_scan_extensions(s, pos, e, next)
                                    } else {
                                        None
                                    }
                                },
                            },
                        }
                    }
                },
            },
        }
    }
}

/// The byte range of the SNI hostname within a ClientHello TCP payload, or
/// `None` when the payload does not parse to one.
///
/// The fixed prefix (record header, handshake header, client version and
/// random) occupies bytes 0..43. Byte 43 declares the session-id length,
/// then two bytes declare the cipher-suites length, one byte the
/// compression-methods length, and two bytes the total extensions length,
/// each field skipped by its declared length before the extension walk.
pub open spec fn spec_sni_range(s: Seq<u8>) -> Option<(int, int)> {
    match byte_at(s, 43) {
        None => None,
        Some(session_len) => {
            let p1 = 44 + session_len as int;
            match be_u16_at(s, p1) {
                None => None,
                Some(cs_len) => {
                    let p2 = p1 + 2 + cs_len as int;
                    match byte_at(s, p2) {
                        None => None,
                        Some(comp_len) => {
                            let p3 = p2 + 1 + comp_len as int;
                            match be_u16_at(s, p3) {
                                None => None,
                                Some(ext_len) => spec_scan_extensions(
                                    s,
                                    p3 + 2,
                                    ext_len as int,
                                    0,
                                ),
                            }
                        },
                    }
                },
            }
        },
    }
}

/// The SNI hostname of a ClientHello TCP payload: the characters decoded
/// from the hostname byte range, or `None` when there is no such range or
/// its bytes are not valid UTF-8.
pub open spec fn spec_extract_sni(s: Seq<u8>) -> Option<Seq<char>> {
    match spec_sni_range(s) {
        None => None,
        Some((lo, hi)) => if valid_utf8(s.subrange(lo, hi)) {
            Some(decode_utf8(s.subrange(lo, hi)))
        } else {
            None
        },
    }
}

/// Relies on `std::str::from_utf8`: it returns `Ok` exactly when the bytes
/// are valid UTF-8, and the resulting `&str` is the decoded character
/// sequence over those same bytes.
#[verifier::external_body]
fn bytes_as_utf8(bytes: &[u8]) -> (r: Option<&str>)
    ensures
        r is Some <==> valid_utf8(bytes@),
        r matches Some(h) ==> h@ == decode_utf8(bytes@),
{
    std::str::from_utf8(bytes).ok()
}

/// The byte at `pos`, bounds-checked.
fn read_u8(s: &[u8], pos: usize) -> (r: Option<u8>)
    ensures
        r == byte_at(s@, pos as int),
{
    if pos < s.len() {
        Some(s[pos])
    } else {
        None
    }
}

/// The big-endian 16-bit integer at `pos`, bounds-checked.
fn read_u16_be(s: &[u8], pos: usize) -> (r: Option<u16>)
    ensures
        r == be_u16_at(s@, pos as int),
{
    if pos < s.len() && s.len() - pos >= 2 {
        Some((s[pos] as u16) * 256 + (s[pos + 1] as u16))
    } else {
        None
    }
}

/// Extracts the SNI hostname from the TCP payload of a TLS ClientHello.
///
/// Returns a slice borrowed from `payload`, or `None` when the payload is
/// not a well-formed ClientHello carrying a host_name entry, when a declared
/// length would place a read past the end of the buffer, or when the name is
/// not valid UTF-8.
pub fn extract_sni(payload: &[u8]) -> (r: Option<&str>)
    ensures
        r is None ==> spec_extract_sni(payload@) is None,
        r matches Some(h) ==> spec_extract_sni(payload@) == Some(h@),
{
    let session_len = match read_u8(payload, 43) {
        None => {
            return None;
        },
        Some(b) => b,
    };
    let p1: usize = 44 + session_len as usize;
    let cs_len = match read_u16_be(payload, p1) {
        None => {
            return None;
        },
        Some(v) => v,
    };
    let p2: usize = p1 + 2 + cs_len as usize;
    let comp_len = match read_u8(payload, p2) {
        None => {
            return None;
        },
        Some(b) => b,
    };
    let p3: usize = p2 + 1 + comp_len as usize;
    let ext_len = match read_u16_be(payload, p3) {
        None => {
            return None;
        },
        Some(v) => v,
    };
    let base: usize = p3 + 2;
    let e: usize = ext_len as usize;
    let mut ext_pos: usize = 0;
    while ext_pos < e
        invariant
            base <= 66094,
            e <= 65535,
            spec_sni_range(payload@) == spec_scan_extensions(
                payload@,
                base as int,
                e as int,
                ext_pos as int,
            ),
        decreases (if ext_pos < e {
            e - ext_pos
        } else {
            0
        }),
    {
        let ext_type = match read_u16_be(payload, base + ext_pos) {
            None => {
                return None;
            },
            Some(v) => v,
        };
        let ext_len_field = match read_u16_be(payload, base + ext_pos + 2) {
            None => {
                return None;
            },
            Some(v) => v,
        };
        if ext_type == 0 {
            let body: usize = base + ext_pos + 4;
            let _list_len = match read_u16_be(payload, body) {
                None => {
                    return None;
                },
                Some(v) => v,
            };
            let name_type = match read_u8(payload, body + 2) {
                None => {
                    return None;
                },
                Some(b) => b,
            };
            if name_type == 0 {
                let name_len = match read_u16_be(payload, body + 3) {
                    None => {
                        return None;
                    },
                    Some(v) => v,
                };
                let lo: usize = body + 5;
                let hi: usize = lo + name_len as usize;
                if hi > payload.len() {
                    return None;
                }
                let name_bytes = slice_subrange(payload, lo, hi);
                return bytes_as_utf8(name_bytes);
            }
        }
        ext_pos = ext_pos + 4 + ext_len_field as usize;
    }
    None
}

/// Names the TCP payload that slicing an Ethernet frame finds: the bytes
/// after the link, IP and TCP headers, or `None` when the frame does not
/// carry a TCP segment. The slicing is deterministic in the frame bytes.
pub uninterp spec fn tcp_payload_of(frame: Seq<u8>) -> Option<Seq<u8>>;

/// Relies on `etherparse::SlicedPacket::from_ethernet`: slicing a frame
/// reads nothing but the frame bytes, and when it finds a TCP segment,
/// `TcpSlice::payload` is the slice after the TCP header.
#[verifier::external_body]
fn frame_tcp_payload(frame: &[u8]) -> (r: Option<&[u8]>)
    ensures
        r is None ==> tcp_payload_of(frame@) is None,
        r matches Some(p) ==> tcp_payload_of(frame@) == Some(p@),
{
    match etherparse::SlicedPacket::from_ethernet(frame) {
        Err(_) => None,
        Ok(sliced) => match sliced.transport {
            Some(etherparse::TransportSlice::Tcp(tcp)) => Some(tcp.payload()),
            _ => None,
        },
    }
}

/// The SNI hostname of a whole Ethernet frame: the frame sliced to its TCP
/// payload, and that payload parsed as a ClientHello.
pub open spec fn spec_get_sni(frame: Seq<u8>) -> Option<Seq<char>> {
    match tcp_payload_of(frame) {
        None => None,
        Some(p) => spec_extract_sni(p),
    }
}

/// Extracts the SNI hostname from a raw Ethernet frame: decodes the link,
/// IP and TCP headers, then parses the TCP payload as a TLS ClientHello.
///
/// Returns `None` when the frame does not carry a TCP segment or its
/// payload does not parse to a hostname.
pub fn get_sni(packet: &[u8]) -> (r: Option<&str>)
    ensures
        r is None ==> spec_get_sni(packet@) is None,
        r matches Some(h) ==> spec_get_sni(packet@) == Some(h@),
{
    match frame_tcp_payload(packet) {
        None => None,
        Some(payload) => extract_sni(payload),
    }
}

/// Idempotence law: the hostname is a function of the payload bytes alone,
/// so any two results that `extract_sni` may return for buffers with the
/// same bytes agree.
pub proof fn lemma_extract_sni_deterministic(
    s: Seq<u8>,
    r1: Option<Seq<char>>,
    r2: Option<Seq<char>>,
)
    requires
        r1 == spec_extract_sni(s),
        r2 == spec_extract_sni(s),
    ensures
        r1 == r2,
{
}

/// A payload shorter than the 43-byte fixed ClientHello prefix plus the
/// session-id length byte never parses to a hostname.
pub proof fn lemma_short_payload_no_sni(s: Seq<u8>)
    requires
        s.len() < 43,
    ensures
        spec_extract_sni(s) is None,
{
}

/// Any hostname range the extension walk yields lies past the extension
/// cursor and within the buffer.
proof fn lemma_scan_range_in_bounds(s: Seq<u8>, pos: int, e: int, ext_pos: int, lo: int, hi: int)
    requires
        0 <= ext_pos,
        spec_scan_extensions(s, pos, e, ext_pos) == Some((lo, hi)),
    ensures
        pos + ext_pos + 9 <= lo <= hi <= s.len(),
    decreases e - ext_pos,
{
    let ext_len = be_u16_at(s, pos + ext_pos + 2).unwrap();
    let next = ext_pos + 4 + ext_len;
    if be_u16_at(s, pos + ext_pos) == Some(0u16) {
        let body = pos + ext_pos + 4;
        if byte_at(s, body + 2) != Some(0u8) && next < e {
            lemma_scan_range_in_bounds(s, pos, e, next, lo, hi);
        }
    } else {
        lemma_scan_range_in_bounds(s, pos, e, next, lo, hi);
    }
}

/// Bounds law: a hostname is only ever taken from bytes that lie inside the
/// payload, past the fixed prefix — every declared length was held against
/// the buffer before the read.
pub proof fn lemma_sni_range_in_bounds(s: Seq<u8>, lo: int, hi: int)
    requires
        spec_sni_range(s) == Some((lo, hi)),
    ensures
        43 <= lo <= hi <= s.len(),
{
    let session_len = byte_at(s, 43).unwrap();
    let p1 = 44 + session_len as int;
    let cs_len = be_u16_at(s, p1).unwrap();
    let p2 = p1 + 2 + cs_len as int;
    let comp_len = byte_at(s, p2).unwrap();
    let p3 = p2 + 1 + comp_len as int;
    lemma_scan_range_in_bounds(s, p3 + 2, be_u16_at(s, p3).unwrap() as int, 0, lo, hi);
}

} // verus!
