//! The bincode calls of the agent information frame and of request frames.
//!
//! Every function here makes one call into `bincode`, in its standard
//! configuration, on plain values. bincode writes a struct as the plain
//! sequence of its fields and an enum as its variant number followed by its
//! contents, so a tuple of the same fields has the same bytes as the struct,
//! and a `Result` those of any enum with two variants.
//!
//! Texts are read as borrowed slices. A length beyond the end of the bytes is
//! then an error, and never a request for memory.
//!
//! The bytes that bincode writes are stated, and so is what it reads as
//! numbers. What it reads as texts is given a name. A decoding is the value
//! with the number of bytes it took up.

use vstd::pervasive::unreached;
use vstd::prelude::*;

use crate::collections::{ascending, keys, text_pairs, texts};
use crate::types::{AuditHealth, ManifestFormatRange, SocketAddr, Status};

verus! {

use vstd::utf8::encode_utf8;
use crate::types::AddrParts;

/// The error of a bincode decode.
#[verifier::external_type_specification]
#[verifier::external_body]
pub struct ExDecodeError(bincode::error::DecodeError);

/// The error of a bincode encode.
#[verifier::external_type_specification]
#[verifier::external_body]
pub struct ExEncodeError(bincode::error::EncodeError);

/// The base fields of the agent information: name, agent version, protocol
/// version, address and status.
pub type BaseParts = (Seq<char>, Seq<char>, Seq<char>, AddrParts, Status);

/// The key and value texts of a map, and a domain.
pub type FingerprintParts = (Seq<(Seq<char>, Seq<char>)>, Seq<char>);

/// The base fields of the agent information, as they travel.
pub struct WireBase {
    pub agent_name: String,
    pub agent_version: String,
    pub protocol_version: String,
    pub addr: SocketAddr,
    pub status: Status,
}

impl View for WireBase {
    type V = BaseParts;

    open spec fn view(&self) -> BaseParts {
        (
            self.agent_name@,
            self.agent_version@,
            self.protocol_version@,
            self.addr@,
            self.status,
        )
    }
}

/// What bincode reads as the base fields.
pub uninterp spec fn base_decoding(bytes: Seq<u8>) -> Option<(BaseParts, nat)>;

/// What bincode reads as a set of texts.
pub uninterp spec fn texts_decoding(bytes: Seq<u8>) -> Option<(Seq<Seq<char>>, nat)>;

/// What bincode reads as an optional map of texts with a domain.
pub uninterp spec fn fingerprint_decoding(bytes: Seq<u8>) -> Option<
    (Option<FingerprintParts>, nat),
>;

/// The `count` lowest bytes of a number, the lowest first.
pub open spec fn low_bytes(n: nat, count: nat) -> Seq<u8>
    decreases count,
{
    if count == 0 {
        Seq::empty()
    } else {
        seq![(n % 256) as u8] + low_bytes(n / 256, (count - 1) as nat)
    }
}

/// The bytes of a number of up to 64 bits: a small one stands for itself, and
/// any other follows a byte that tells its width.
pub open spec fn number_bytes(n: nat) -> Seq<u8> {
    if n <= 250 {
        seq![n as u8]
    } else if n <= u16::MAX {
        seq![251u8] + low_bytes(n, 2)
    } else if n <= u32::MAX {
        seq![252u8] + low_bytes(n, 4)
    } else {
        seq![253u8] + low_bytes(n, 8)
    }
}

/// The bytes of a text: the length of its UTF-8 form, and that form.
pub open spec fn text_bytes(text: Seq<char>) -> Seq<u8> {
    number_bytes(encode_utf8(text).len()) + encode_utf8(text)
}

/// The bytes of an address: which of the two it is, its octets and its port.
pub open spec fn addr_bytes(addr: AddrParts) -> Seq<u8> {
    match addr {
        Ok((octets, port)) => seq![0u8] + octets + number_bytes(port as nat),
        Err((octets, port)) => seq![1u8] + octets + number_bytes(port as nat),
    }
}

/// The bytes of the base fields.
pub open spec fn base_encoding(base: BaseParts) -> Seq<u8> {
    text_bytes(base.0) + text_bytes(base.1) + text_bytes(base.2) + addr_bytes(base.3) + (
    match base.4 {
        Status::Ready => seq![0u8],
        Status::Idle => seq![1u8],
    })
}

/// The bytes of a list of texts: their number, and each of them.
pub open spec fn texts_encoding(items: Seq<Seq<char>>) -> Seq<u8> {
    number_bytes(items.len()) + items.map_values(|text: Seq<char>| text_bytes(text)).flatten()
}

/// The bytes of an optional map of texts with a domain: the number of entries,
/// each key with its value, and the domain.
pub open spec fn fingerprint_encoding(fingerprint: Option<FingerprintParts>) -> Seq<u8> {
    match fingerprint {
        None => seq![0u8],
        Some((entries, domain)) => seq![1u8] + number_bytes(entries.len()) + entries.map_values(
            |entry: (Seq<char>, Seq<char>)| text_bytes(entry.0) + text_bytes(entry.1),
        ).flatten() + text_bytes(domain),
    }
}

/// The bytes of an optional 64-bit number.
pub open spec fn epoch_encoding(epoch: Option<u64>) -> Seq<u8> {
    match epoch {
        None => seq![0u8],
        Some(n) => seq![1u8] + number_bytes(n as nat),
    }
}

/// The bytes of an optional pair of 32-bit numbers.
pub open spec fn range_encoding(range: Option<(u32, u32)>) -> Seq<u8> {
    match range {
        None => seq![0u8],
        Some((min, max)) => seq![1u8] + number_bytes(min as nat) + number_bytes(max as nat),
    }
}

/// The bytes of an optional pair of a flag and a 64-bit number.
pub open spec fn audit_encoding(audit: Option<(bool, u64)>) -> Seq<u8> {
    match audit {
        None => seq![0u8],
        Some((flag, n)) => seq![1u8, if flag { 1u8 } else { 0u8 }] + number_bytes(n as nat),
    }
}

/// The number that bytes stand for, the lowest of them first.
pub open spec fn low_number(bytes: Seq<u8>) -> nat
    decreases bytes.len(),
{
    if bytes.len() == 0 {
        0
    } else {
        bytes[0] as nat + 256 * low_number(bytes.skip(1))
    }
}

/// How many bytes follow a byte that tells the width of a number.
pub open spec fn width_behind(tag: u8) -> nat {
    if tag <= 250 {
        0
    } else if tag == 251 {
        2
    } else if tag == 252 {
        4
    } else if tag == 253 {
        8
    } else {
        16
    }
}

/// What is read as a number of up to `width` bytes. A number may stand in more
/// bytes than it needs, but not in more than `width`.
pub open spec fn number_decoding(bytes: Seq<u8>, width: nat) -> Option<(nat, nat)> {
    if bytes.len() == 0 {
        None
    } else if bytes[0] <= 250 {
        Some((bytes[0] as nat, 1))
    } else {
        let end = 1 + width_behind(bytes[0]);
        if end > 1 + width || end > bytes.len() {
            None
        } else {
            Some((low_number(bytes.subrange(1, end as int)), end))
        }
    }
}

/// What is read as an optional 64-bit number.
#[verifier::opaque]
pub open spec fn epoch_decoding(bytes: Seq<u8>) -> Option<(Option<u64>, nat)> {
    if bytes.len() == 0 || bytes[0] > 1 {
        None
    } else if bytes[0] == 0 {
        Some((None, 1))
    } else {
        match number_decoding(bytes.skip(1), 8) {
            Some((n, taken)) => Some((Some(n as u64), 1 + taken)),
            None => None,
        }
    }
}

/// What is read as an optional pair of 32-bit numbers.
#[verifier::opaque]
pub open spec fn range_decoding(bytes: Seq<u8>) -> Option<(Option<(u32, u32)>, nat)> {
    if bytes.len() == 0 || bytes[0] > 1 {
        None
    } else if bytes[0] == 0 {
        Some((None, 1))
    } else {
        match number_decoding(bytes.skip(1), 4) {
            Some((min, first)) => match number_decoding(bytes.skip(1 + first as int), 4) {
                Some((max, second)) => Some((Some((min as u32, max as u32)), 1 + first + second)),
                None => None,
            },
            None => None,
        }
    }
}

/// What is read as an optional pair of a flag and a 64-bit number.
#[verifier::opaque]
pub open spec fn audit_decoding(bytes: Seq<u8>) -> Option<(Option<(bool, u64)>, nat)> {
    if bytes.len() == 0 || bytes[0] > 1 {
        None
    } else if bytes[0] == 0 {
        Some((None, 1))
    } else if bytes.len() == 1 || bytes[1] > 1 {
        None
    } else {
        match number_decoding(bytes.skip(2), 8) {
            Some((n, taken)) => Some((Some((bytes[1] == 1, n as u64)), 2 + taken)),
            None => None,
        }
    }
}

/// How many numbers `count` bytes can stand for.
spec fn capacity(count: nat) -> nat
    decreases count,
{
    if count == 0 {
        1
    } else {
        256 * capacity((count - 1) as nat)
    }
}

proof fn lemma_low_bytes(n: nat, count: nat)
    requires
        n < capacity(count),
    ensures
        low_bytes(n, count).len() == count,
        low_number(low_bytes(n, count)) == n,
    decreases count,
{
    if count > 0 {
        let rest = low_bytes(n / 256, (count - 1) as nat);
        lemma_low_bytes(n / 256, (count - 1) as nat);
        assert(low_bytes(n, count).skip(1) =~= rest);
    }
}

/// A number is read back from its bytes, whatever follows them, and not from
/// fewer of them.
pub proof fn number_reads_back(n: nat, width: nat)
    requires
        width == 4 && n <= u32::MAX || width == 8 && n <= u64::MAX,
    ensures
        forall|rest: Seq<u8>| #[trigger]
            number_decoding(number_bytes(n) + rest, width) == Some((n, number_bytes(n).len())),
        forall|k: int|
            0 <= k < number_bytes(n).len() ==> #[trigger] number_decoding(
                number_bytes(n).take(k),
                width,
            ) is None,
{
    reveal_with_fuel(capacity, 9);
    let bytes = number_bytes(n);
    let count = width_behind(bytes[0]);
    if n > 250 {
        lemma_low_bytes(n, count);
    }
    assert(bytes.len() == 1 + count);
    assert forall|rest: Seq<u8>| #[trigger]
        number_decoding(bytes + rest, width) == Some((n, bytes.len())) by {
        if n > 250 {
            assert((bytes + rest).subrange(1, 1 + count as int) =~= low_bytes(n, count));
        }
    }
    assert forall|k: int| 0 <= k < bytes.len() implies #[trigger] number_decoding(
        bytes.take(k),
        width,
    ) is None by {
        if k > 0 {
            assert(bytes.take(k)[0] == bytes[0]);
        }
    }
}

/// An optional 64-bit number is read back from its bytes, whatever follows
/// them, and not from fewer of them.
pub proof fn epoch_reads_back(epoch: Option<u64>)
    ensures
        forall|rest: Seq<u8>| #[trigger]
            epoch_decoding(epoch_encoding(epoch) + rest) == Some(
                (epoch, epoch_encoding(epoch).len()),
            ),
        forall|k: int|
            0 <= k < epoch_encoding(epoch).len() ==> #[trigger] epoch_decoding(
                epoch_encoding(epoch).take(k),
            ) is None,
{
    reveal(epoch_decoding);
    let bytes = epoch_encoding(epoch);
    if let Some(n) = epoch {
        let number = number_bytes(n as nat);
        number_reads_back(n as nat, 8);
        assert forall|rest: Seq<u8>| #[trigger]
            epoch_decoding(bytes + rest) == Some((epoch, bytes.len())) by {
            assert((bytes + rest).skip(1) =~= number + rest);
        }
        assert forall|k: int| 0 <= k < bytes.len() implies #[trigger] epoch_decoding(
            bytes.take(k),
        ) is None by {
            if k > 0 {
                assert(bytes.take(k).skip(1) =~= number.take(k - 1));
            }
        }
    }
}

/// An optional pair of 32-bit numbers is read back from its bytes, whatever
/// follows them, and not from fewer of them.
pub proof fn range_reads_back(range: Option<(u32, u32)>)
    ensures
        forall|rest: Seq<u8>| #[trigger]
            range_decoding(range_encoding(range) + rest) == Some(
                (range, range_encoding(range).len()),
            ),
        forall|k: int|
            0 <= k < range_encoding(range).len() ==> #[trigger] range_decoding(
                range_encoding(range).take(k),
            ) is None,
{
    reveal(range_decoding);
    let bytes = range_encoding(range);
    if let Some((min, max)) = range {
        let first = number_bytes(min as nat);
        let second = number_bytes(max as nat);
        let behind = 1 + first.len() as int;
        number_reads_back(min as nat, 4);
        number_reads_back(max as nat, 4);
        assert forall|rest: Seq<u8>| #[trigger]
            range_decoding(bytes + rest) == Some((range, bytes.len())) by {
            assert((bytes + rest).skip(1) =~= first + (second + rest));
            assert((bytes + rest).skip(behind) =~= second + rest);
        }
        assert forall|k: int| 0 <= k < bytes.len() implies #[trigger] range_decoding(
            bytes.take(k),
        ) is None by {
            if 0 < k < behind {
                assert(bytes.take(k).skip(1) =~= first.take(k - 1));
            } else if k >= behind {
                assert(bytes.take(k).skip(1) =~= first + second.take(k - behind));
                assert(bytes.take(k).skip(behind) =~= second.take(k - behind));
            }
        }
    }
}

/// An optional pair of a flag and a 64-bit number is read back from its bytes,
/// whatever follows them, and not from fewer of them.
pub proof fn audit_reads_back(audit: Option<(bool, u64)>)
    ensures
        forall|rest: Seq<u8>| #[trigger]
            audit_decoding(audit_encoding(audit) + rest) == Some(
                (audit, audit_encoding(audit).len()),
            ),
        forall|k: int|
            0 <= k < audit_encoding(audit).len() ==> #[trigger] audit_decoding(
                audit_encoding(audit).take(k),
            ) is None,
{
    reveal(audit_decoding);
    let bytes = audit_encoding(audit);
    if let Some((_, n)) = audit {
        let number = number_bytes(n as nat);
        number_reads_back(n as nat, 8);
        assert forall|rest: Seq<u8>| #[trigger]
            audit_decoding(bytes + rest) == Some((audit, bytes.len())) by {
            assert((bytes + rest).skip(2) =~= number + rest);
        }
        assert forall|k: int| 0 <= k < bytes.len() implies #[trigger] audit_decoding(
            bytes.take(k),
        ) is None by {
            if k > 1 {
                assert(bytes.take(k).skip(2) =~= number.take(k - 2));
            }
        }
    }
}

/// Calls `bincode::serde::borrow_decode_from_slice` for the base fields.
///
/// Claimed of it: the value and the number of bytes taken up are a function
/// of the bytes, and it takes up no more bytes than there are.
#[verifier::external_body]
pub(crate) fn decode_base(bytes: &[u8]) -> (r: Result<
    (WireBase, usize),
    bincode::error::DecodeError,
>)
    ensures
        match r {
            Ok((base, n)) => base_decoding(bytes@) == Some((base@, n as nat)) && n <= bytes@.len(),
            Err(_) => base_decoding(bytes@) is None,
        },
{
    let ((name, version, protocol, addr, status), n) = bincode::serde::borrow_decode_from_slice::<
        (&str, &str, &str, Result<([u8; 4], u16), ([u8; 16], u16)>, Result<(), ()>), _>(bytes,
        bincode::config::standard())?;
    let addr = match addr {
        Ok((octets, port)) => SocketAddr::V4(octets, port),
        Err((octets, port)) => SocketAddr::V6(octets, port),
    };
    let status = match status {
        Ok(()) => Status::Ready,
        Err(()) => Status::Idle,
    };
    let agent_name = name.to_owned();
    let agent_version = version.to_owned();
    let protocol_version = protocol.to_owned();
    Ok((WireBase { agent_name, agent_version, protocol_version, addr, status }, n))
}

/// Calls `bincode::serde::encode_to_vec` for the base fields.
///
/// Claimed of it: it succeeds and writes one field behind the other, and the
/// decode reads the fields back from the bytes, whatever follows them, and
/// fails on the bytes if the last of them are cut off.
#[verifier::external_body]
pub(crate) fn encode_base(base: &WireBase) -> (r: Result<Vec<u8>, bincode::error::EncodeError>)
    ensures
        r is Ok,
        r->Ok_0@ == base_encoding(base@),
        forall|rest: Seq<u8>| #[trigger]
            base_decoding(r->Ok_0@ + rest) == Some((base@, r->Ok_0@.len())),
        forall|k: int|
            0 <= k < r->Ok_0@.len() ==> #[trigger] base_decoding(r->Ok_0@.take(k)) is None,
{
    let addr: Result<([u8; 4], u16), ([u8; 16], u16)> = match base.addr {
        SocketAddr::V4(octets, port) => Ok((octets, port)),
        SocketAddr::V6(octets, port) => Err((octets, port)),
    };
    let status: Result<(), ()> = match base.status {
        Status::Ready => Ok(()),
        Status::Idle => Err(()),
    };
    let fields = (&base.agent_name, &base.agent_version, &base.protocol_version, addr, status);
    bincode::serde::encode_to_vec(fields, bincode::config::standard())
}

/// Calls `bincode::serde::borrow_decode_from_slice` for a set of texts.
///
/// Claimed of it: the entries and the number of bytes taken up are a
/// function of the bytes, it takes up no more bytes than there are, and the
/// entries are ascending, as `BTreeSet` hands them out.
#[verifier::external_body]
pub(crate) fn decode_texts(bytes: &[u8]) -> (r: Result<
    (Vec<String>, usize),
    bincode::error::DecodeError,
>)
    ensures
        match r {
            Ok((items, n)) => {
                &&& texts_decoding(bytes@) == Some((texts(items@), n as nat))
                &&& n <= bytes@.len()
                &&& ascending(texts(items@))
            },
            Err(_) => texts_decoding(bytes@) is None,
        },
{
    let (items, n) = bincode::serde::borrow_decode_from_slice::<
        std::collections::BTreeSet<&str>, _>(bytes, bincode::config::standard())?;
    Ok((items.into_iter().map(str::to_owned).collect(), n))
}

/// Calls `bincode::serde::encode_to_vec` for a list of texts, which is also
/// how a set of them is written.
///
/// Claimed of it: it succeeds and writes the number of entries and each of
/// them. If the entries are ascending, the decode of a set reads them back
/// from the bytes, whatever follows them. It fails on the bytes if the last of
/// them are cut off.
#[verifier::external_body]
pub(crate) fn encode_texts(items: &[String]) -> (r: Result<Vec<u8>, bincode::error::EncodeError>)
    ensures
        r is Ok,
        r->Ok_0@ == texts_encoding(texts(items@)),
        forall|rest: Seq<u8>|
            ascending(texts(items@)) ==> #[trigger] texts_decoding(r->Ok_0@ + rest) == Some(
                (texts(items@), r->Ok_0@.len()),
            ),
        forall|k: int|
            0 <= k < r->Ok_0@.len() ==> #[trigger] texts_decoding(r->Ok_0@.take(k)) is None,
{
    bincode::serde::encode_to_vec(items, bincode::config::standard())
}

/// Calls `bincode::serde::borrow_decode_from_slice` for an optional 64-bit
/// number.
///
/// Claimed of it: it reads a byte that tells whether the value is there, and
/// the value behind it, and takes up no more bytes than there are. It fails on
/// any other bytes.
#[verifier::external_body]
pub(crate) fn decode_epoch(bytes: &[u8]) -> (r: Result<
    (Option<u64>, usize),
    bincode::error::DecodeError,
>)
    ensures
        match r {
            Ok((epoch, n)) => epoch_decoding(bytes@) == Some((epoch, n as nat)) && n
                <= bytes@.len(),
            Err(_) => epoch_decoding(bytes@) is None,
        },
{
    bincode::serde::borrow_decode_from_slice(bytes, bincode::config::standard())
}

/// Calls `bincode::serde::encode_to_vec` for an optional 64-bit number.
///
/// Claimed of it: it succeeds and writes a byte that tells whether the value
/// is there, and the value behind it.
#[verifier::external_body]
pub(crate) fn encode_epoch(epoch: Option<u64>) -> (r: Result<
    Vec<u8>,
    bincode::error::EncodeError,
>)
    ensures
        r is Ok,
        r->Ok_0@ == epoch_encoding(epoch),
{
    bincode::serde::encode_to_vec(epoch, bincode::config::standard())
}

/// The bounds of an optional range.
pub open spec fn range_parts(range: Option<ManifestFormatRange>) -> Option<(u32, u32)> {
    match range {
        Some(r) => Some((r.min, r.max)),
        None => None,
    }
}

/// Calls `bincode::serde::borrow_decode_from_slice` for an optional pair of
/// 32-bit numbers.
///
/// Claimed of it: it reads a byte that tells whether the value is there, and
/// the value behind it, and takes up no more bytes than there are. It fails on
/// any other bytes.
#[verifier::external_body]
pub(crate) fn decode_range(bytes: &[u8]) -> (r: Result<
    (Option<(u32, u32)>, usize),
    bincode::error::DecodeError,
>)
    ensures
        match r {
            Ok((range, n)) => range_decoding(bytes@) == Some((range, n as nat)) && n
                <= bytes@.len(),
            Err(_) => range_decoding(bytes@) is None,
        },
{
    bincode::serde::borrow_decode_from_slice(bytes, bincode::config::standard())
}

/// Calls `bincode::serde::encode_to_vec` for an optional pair of 32-bit
/// numbers.
///
/// Claimed of it: it succeeds and writes a byte that tells whether the value
/// is there, and the value behind it.
#[verifier::external_body]
pub(crate) fn encode_range(range: Option<(u32, u32)>) -> (r: Result<
    Vec<u8>,
    bincode::error::EncodeError,
>)
    ensures
        r is Ok,
        r->Ok_0@ == range_encoding(range),
{
    bincode::serde::encode_to_vec(range, bincode::config::standard())
}

/// The texts of an optional pair of entries and a domain.
pub open spec fn fingerprint_parts(fingerprint: Option<(Vec<(String, String)>, String)>) -> Option<
    FingerprintParts,
> {
    match fingerprint {
        Some((entries, domain)) => Some((text_pairs(entries@), domain@)),
        None => None,
    }
}

/// Calls `bincode::serde::borrow_decode_from_slice` for an optional map of
/// texts with a domain.
///
/// Claimed of it: the value and the number of bytes taken up are a function
/// of the bytes, it takes up no more bytes than there are, and the keys are
/// ascending, as `BTreeMap` hands them out.
#[verifier::external_body]
pub(crate) fn decode_fingerprint(bytes: &[u8]) -> (r: Result<
    (Option<(Vec<(String, String)>, String)>, usize),
    bincode::error::DecodeError,
>)
    ensures
        match r {
            Ok((fingerprint, n)) => {
                &&& fingerprint_decoding(bytes@) == Some(
                    (fingerprint_parts(fingerprint), n as nat),
                )
                &&& n <= bytes@.len()
                &&& fingerprint matches Some((entries, _)) ==> ascending(
                    keys(text_pairs(entries@)),
                )
            },
            Err(_) => fingerprint_decoding(bytes@) is None,
        },
{
    let (value, n) = bincode::serde::borrow_decode_from_slice::<
        Option<(std::collections::BTreeMap<&str, &str>, &str)>, _>(bytes,
        bincode::config::standard())?;
    let fingerprint = value.map(|(map, domain)| {
        let own = |(key, value): (&str, &str)| (key.to_owned(), value.to_owned());
        (map.into_iter().map(own).collect(), domain.to_owned())
    });
    Ok((fingerprint, n))
}

/// Calls `bincode::serde::encode_to_vec` for an optional map of texts with a
/// domain.
///
/// Claimed of it: it succeeds and writes a byte that tells whether the value
/// is there, and the value behind it, and the decode reads the value back from
/// the bytes, whatever follows them, and fails on the bytes if the last of
/// them are cut off.
#[verifier::external_body]
pub(crate) fn encode_fingerprint(fingerprint: Option<(&Vec<(String, String)>, &String)>) -> (r:
    Result<Vec<u8>, bincode::error::EncodeError>)
    requires
        fingerprint matches Some((entries, _)) ==> ascending(keys(text_pairs(entries@))),
    ensures
        r is Ok,
        r->Ok_0@ == fingerprint_encoding(borrowed_parts(fingerprint)),
        forall|rest: Seq<u8>| #[trigger]
            fingerprint_decoding(r->Ok_0@ + rest) == Some(
                (borrowed_parts(fingerprint), r->Ok_0@.len()),
            ),
        forall|k: int|
            0 <= k < r->Ok_0@.len() ==> #[trigger] fingerprint_decoding(r->Ok_0@.take(k)) is None,
{
    bincode::serde::encode_to_vec(fingerprint, bincode::config::standard())
}

/// The texts of an optional pair of borrowed entries and a borrowed domain.
pub open spec fn borrowed_parts(fingerprint: Option<(&Vec<(String, String)>, &String)>) -> Option<
    FingerprintParts,
> {
    match fingerprint {
        Some((entries, domain)) => Some((text_pairs(entries@), domain@)),
        None => None,
    }
}

/// The flag and the number of an optional audit reading.
pub open spec fn audit_parts(audit: Option<AuditHealth>) -> Option<(bool, u64)> {
    match audit {
        Some(a) => Some((a.below_low_water, a.intent_without_outcome)),
        None => None,
    }
}

/// Calls `bincode::serde::borrow_decode_from_slice` for an optional pair of
/// a flag and a 64-bit number.
///
/// Claimed of it: it reads a byte that tells whether the value is there, and
/// the value behind it, and takes up no more bytes than there are. It fails on
/// any other bytes.
#[verifier::external_body]
pub(crate) fn decode_audit(bytes: &[u8]) -> (r: Result<
    (Option<(bool, u64)>, usize),
    bincode::error::DecodeError,
>)
    ensures
        match r {
            Ok((audit, n)) => audit_decoding(bytes@) == Some((audit, n as nat)) && n
                <= bytes@.len(),
            Err(_) => audit_decoding(bytes@) is None,
        },
{
    bincode::serde::borrow_decode_from_slice(bytes, bincode::config::standard())
}

/// Calls `bincode::serde::encode_to_vec` for an optional pair of a flag and
/// a 64-bit number.
///
/// Claimed of it: it succeeds and writes a byte that tells whether the value
/// is there, and the value behind it.
#[verifier::external_body]
pub(crate) fn encode_audit(audit: Option<(bool, u64)>) -> (r: Result<
    Vec<u8>,
    bincode::error::EncodeError,
>)
    ensures
        r is Ok,
        r->Ok_0@ == audit_encoding(audit),
{
    bincode::serde::encode_to_vec(audit, bincode::config::standard())
}

/// Calls `bincode::serde::encode_to_vec` for a 32-bit number, with integers
/// at their fixed size.
///
/// Claimed of it: it succeeds and writes the four bytes of the number, the
/// lowest first.
#[verifier::external_body]
pub(crate) fn encode_number(n: u32) -> (r: Result<Vec<u8>, bincode::error::EncodeError>)
    ensures
        r is Ok,
        r->Ok_0@ == low_bytes(n as nat, 4),
{
    bincode::serde::encode_to_vec(n, bincode::config::standard().with_fixed_int_encoding())
}

/// Calls `to_string` on an error of a bincode decode, which renders it by its
/// `Display`.
///
/// Nothing is claimed of the characters of the text. A caller's contract says
/// of which error the text is the rendering.
#[verifier::external_body]
pub(crate) fn error_text(e: &bincode::error::DecodeError) -> (text: String) {
    e.to_string()
}

/// The bytes of an encode into memory, which does not fail.
pub(crate) fn written(r: Result<Vec<u8>, bincode::error::EncodeError>) -> (bytes: Vec<u8>)
    requires
        r is Ok,
    ensures
        Ok::<Vec<u8>, bincode::error::EncodeError>(bytes) == r,
{
    match r {
        Ok(bytes) => bytes,
        Err(_) => unreached(),
    }
}

} // verus!
