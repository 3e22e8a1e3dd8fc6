//! The agent information frame and its conditional tail.
//!
//! The frame is positional and not self-describing. The five fields up to and
//! including the status are the **base** and are always present. Every field
//! after them belongs to the **conditional tail**: `capabilities`,
//! `active_trust_epoch`, `manifest_formats`, `provisioning_fingerprint`,
//! `audit_health`, in that order. A decoder reads the base and then each tail
//! field from the bytes that are left, so a peer may stop at any field
//! boundary. A field that was not sent reads as unknown. A tail that is
//! present but does not decode is an error, never an absent tail.

use vstd::prelude::*;
use vstd::slice::slice_subrange;

use crate::codec::{
    decode_audit, decode_base, decode_epoch, decode_fingerprint, decode_range, decode_texts,
    encode_audit, encode_base, encode_epoch, encode_fingerprint, encode_range, encode_texts,
    error_text, written, WireBase,
};
use crate::collections::{TextMap, TextSet};
use crate::types::{AuditHealth, ManifestFormatRange, ProvisioningFingerprint, SocketAddr, Status};

verus! {

use crate::codec::{
    audit_decoding, audit_encoding, audit_parts, audit_reads_back, base_decoding, base_encoding,
    epoch_decoding, epoch_encoding, epoch_reads_back, fingerprint_decoding, fingerprint_encoding,
    range_decoding, range_encoding, range_parts, range_reads_back, texts_decoding, texts_encoding,
    BaseParts, FingerprintParts,
};
use crate::types::AddrParts;

/// Properties of an agent.
#[derive(Clone, Debug, Eq, PartialEq)]
pub struct AgentInfo {
    pub agent_name: String,
    pub agent_version: String,
    /// The wire protocol version the agent advertises.
    pub protocol_version: String,
    pub addr: SocketAddr,
    pub status: Status,
    /// The capability tags the agent advertises. The set is empty for an
    /// agent that sends none.
    pub capabilities: TextSet,
    /// The trust-set generation the agent reports itself active on, or
    /// `None` when it is unknown.
    pub active_trust_epoch: Option<u64>,
    /// The manifest formats the agent can decode, or `None` when they are
    /// unknown.
    pub manifest_formats: Option<ManifestFormatRange>,
    /// The provisioning digests, or `None` when the agent did not report
    /// them.
    pub provisioning_fingerprint: Option<ProvisioningFingerprint>,
    /// The audit-store health, or `None` when the agent did not report it.
    pub audit_health: Option<AuditHealth>,
}

/// The contents of an [`AgentInfo`].
pub struct AgentInfoView {
    pub agent_name: Seq<char>,
    pub agent_version: Seq<char>,
    pub protocol_version: Seq<char>,
    pub addr: AddrParts,
    pub status: Status,
    pub capabilities: Seq<Seq<char>>,
    pub active_trust_epoch: Option<u64>,
    pub manifest_formats: Option<ManifestFormatRange>,
    pub provisioning_fingerprint: Option<FingerprintParts>,
    pub audit_health: Option<AuditHealth>,
}

/// The contents of an optional fingerprint.
pub open spec fn fingerprint_view(fingerprint: Option<ProvisioningFingerprint>) -> Option<
    FingerprintParts,
> {
    match fingerprint {
        Some(f) => Some(f@),
        None => None,
    }
}

impl View for AgentInfo {
    type V = AgentInfoView;

    open spec fn view(&self) -> AgentInfoView {
        AgentInfoView {
            agent_name: self.agent_name@,
            agent_version: self.agent_version@,
            protocol_version: self.protocol_version@,
            addr: self.addr@,
            status: self.status,
            capabilities: self.capabilities@,
            active_trust_epoch: self.active_trust_epoch,
            manifest_formats: self.manifest_formats,
            provisioning_fingerprint: fingerprint_view(self.provisioning_fingerprint),
            audit_health: self.audit_health,
        }
    }
}

/// Why an agent information frame does not decode.
#[derive(Debug)]
pub enum AgentInfoDecodeError {
    /// The base fields do not decode.
    Base(bincode::error::DecodeError),
    /// The named tail field is present but does not decode.
    Tail { field: &'static str, source: bincode::error::DecodeError },
}

/// The part of a frame that does not decode.
pub enum Undecodable {
    Base,
    Tail { field: &'static str },
}

/// The text of an error in a part of a frame, given the text of its cause.
pub open spec fn undecodable_text(part: Undecodable, cause: Seq<char>) -> Seq<char> {
    match part {
        Undecodable::Base => "cannot decode the agent information: "@ + cause,
        Undecodable::Tail { field } => "cannot decode `"@ + field@
            + "` in the agent information tail: "@ + cause,
    }
}

/// Whether `text` is what bincode says of an error.
pub closed spec fn is_rendering(e: bincode::error::DecodeError, text: Seq<char>) -> bool {
    exists|rendered: String| #[trigger]
        call_ensures(error_text, (&e,), rendered) && rendered@ == text
}

impl AgentInfoDecodeError {
    /// The part of the frame that does not decode.
    pub open spec fn part(self) -> Undecodable {
        match self {
            AgentInfoDecodeError::Base(_) => Undecodable::Base,
            AgentInfoDecodeError::Tail { field, .. } => Undecodable::Tail { field },
        }
    }

    /// The error of the decode of that part.
    pub open spec fn cause(self) -> bincode::error::DecodeError {
        match self {
            AgentInfoDecodeError::Base(source) => source,
            AgentInfoDecodeError::Tail { source, .. } => source,
        }
    }

    /// Returns the text of the error. It names the part that does not decode
    /// and ends with what bincode says of the cause.
    pub fn message(&self) -> (text: String)
        ensures
            exists|cause: Seq<char>|
                is_rendering(self.cause(), cause) && text@ == #[trigger] undecodable_text(
                    self.part(),
                    cause,
                ),
    {
        let cause = match self {
            AgentInfoDecodeError::Base(source) => error_text(source),
            AgentInfoDecodeError::Tail { source, .. } => error_text(source),
        };
        self.message_with(cause.as_str())
    }

    /// Returns the text of the error, given the text of its cause.
    pub fn message_with(&self, cause: &str) -> (text: String)
        ensures
            text@ == undecodable_text(self.part(), cause@),
    {
        match self {
            AgentInfoDecodeError::Base(_) => {
                let mut text: String = "cannot decode the agent information: ".to_owned();
                text.append(cause);
                text
            },
            AgentInfoDecodeError::Tail { field, .. } => {
                let mut text: String = "cannot decode `".to_owned();
                text.append(field);
                text.append("` in the agent information tail: ");
                text.append(cause);
                text
            },
        }
    }
}

/// A field of the conditional tail.
pub trait TailField: Sized {
    /// The contents of the field.
    type Contents;

    /// The contents of this value.
    spec fn contents(self) -> Self::Contents;

    /// What a run of bytes decodes to, with the number of bytes taken up.
    spec fn decoding(bytes: Seq<u8>) -> Option<(Self::Contents, nat)>;

    /// Whether `source` is what bincode refuses `bytes` with.
    spec fn refuses(bytes: Seq<u8>, source: bincode::error::DecodeError) -> bool;

    /// Decodes the field from the front of `bytes`.
    fn decode(bytes: &[u8]) -> (r: Result<(Self, usize), bincode::error::DecodeError>)
        ensures
            match r {
                Ok((value, n)) => Self::decoding(bytes@) == Some((value.contents(), n as nat)) && n
                    <= bytes@.len(),
                Err(source) => Self::decoding(bytes@) is None && Self::refuses(bytes@, source),
            },
    ;
}

impl TailField for TextSet {
    type Contents = Seq<Seq<char>>;

    open spec fn contents(self) -> Seq<Seq<char>> {
        self@
    }

    open spec fn decoding(bytes: Seq<u8>) -> Option<(Seq<Seq<char>>, nat)> {
        texts_decoding(bytes)
    }

    closed spec fn refuses(bytes: Seq<u8>, source: bincode::error::DecodeError) -> bool {
        exists|read: &[u8]|
            read@ == bytes && #[trigger] call_ensures(decode_texts, (read,), Err(source))
    }

    fn decode(bytes: &[u8]) -> (r: Result<(Self, usize), bincode::error::DecodeError>) {
        match decode_texts(bytes) {
            Ok((items, n)) => Ok((TextSet::from_ascending(items), n)),
            Err(e) => Err(e),
        }
    }
}

impl TailField for Option<u64> {
    type Contents = Option<u64>;

    open spec fn contents(self) -> Option<u64> {
        self
    }

    open spec fn decoding(bytes: Seq<u8>) -> Option<(Option<u64>, nat)> {
        epoch_decoding(bytes)
    }

    closed spec fn refuses(bytes: Seq<u8>, source: bincode::error::DecodeError) -> bool {
        exists|read: &[u8]|
            read@ == bytes && #[trigger] call_ensures(decode_epoch, (read,), Err(source))
    }

    fn decode(bytes: &[u8]) -> (r: Result<(Self, usize), bincode::error::DecodeError>) {
        decode_epoch(bytes)
    }
}

/// The range that a pair of bounds stands for.
pub open spec fn range_of(parts: Option<(u32, u32)>) -> Option<ManifestFormatRange> {
    match parts {
        Some((min, max)) => Some(ManifestFormatRange { min, max }),
        None => None,
    }
}

impl TailField for Option<ManifestFormatRange> {
    type Contents = Option<ManifestFormatRange>;

    open spec fn contents(self) -> Option<ManifestFormatRange> {
        self
    }

    open spec fn decoding(bytes: Seq<u8>) -> Option<(Option<ManifestFormatRange>, nat)> {
        match range_decoding(bytes) {
            Some((parts, n)) => Some((range_of(parts), n)),
            None => None,
        }
    }

    closed spec fn refuses(bytes: Seq<u8>, source: bincode::error::DecodeError) -> bool {
        exists|read: &[u8]|
            read@ == bytes && #[trigger] call_ensures(decode_range, (read,), Err(source))
    }

    fn decode(bytes: &[u8]) -> (r: Result<(Self, usize), bincode::error::DecodeError>) {
        match decode_range(bytes) {
            Ok((Some((min, max)), n)) => Ok((Some(ManifestFormatRange { min, max }), n)),
            Ok((None, n)) => Ok((None, n)),
            Err(e) => Err(e),
        }
    }
}

impl TailField for Option<ProvisioningFingerprint> {
    type Contents = Option<FingerprintParts>;

    open spec fn contents(self) -> Option<FingerprintParts> {
        fingerprint_view(self)
    }

    open spec fn decoding(bytes: Seq<u8>) -> Option<(Option<FingerprintParts>, nat)> {
        fingerprint_decoding(bytes)
    }

    closed spec fn refuses(bytes: Seq<u8>, source: bincode::error::DecodeError) -> bool {
        exists|read: &[u8]|
            read@ == bytes && #[trigger] call_ensures(decode_fingerprint, (read,), Err(source))
    }

    fn decode(bytes: &[u8]) -> (r: Result<(Self, usize), bincode::error::DecodeError>) {
        match decode_fingerprint(bytes) {
            Ok((Some((entries, domain)), n)) => {
                let components = TextMap::from_ascending(entries);
                Ok((Some(ProvisioningFingerprint { components, domain }), n))
            },
            Ok((None, n)) => Ok((None, n)),
            Err(e) => Err(e),
        }
    }
}

/// The audit reading that a flag and a number stand for.
pub open spec fn audit_of(parts: Option<(bool, u64)>) -> Option<AuditHealth> {
    match parts {
        Some((below_low_water, intent_without_outcome)) => Some(
            AuditHealth { below_low_water, intent_without_outcome },
        ),
        None => None,
    }
}

impl TailField for Option<AuditHealth> {
    type Contents = Option<AuditHealth>;

    open spec fn contents(self) -> Option<AuditHealth> {
        self
    }

    open spec fn decoding(bytes: Seq<u8>) -> Option<(Option<AuditHealth>, nat)> {
        match audit_decoding(bytes) {
            Some((parts, n)) => Some((audit_of(parts), n)),
            None => None,
        }
    }

    closed spec fn refuses(bytes: Seq<u8>, source: bincode::error::DecodeError) -> bool {
        exists|read: &[u8]|
            read@ == bytes && #[trigger] call_ensures(decode_audit, (read,), Err(source))
    }

    fn decode(bytes: &[u8]) -> (r: Result<(Self, usize), bincode::error::DecodeError>) {
        match decode_audit(bytes) {
            Ok((Some((below_low_water, intent_without_outcome)), n)) => {
                Ok((Some(AuditHealth { below_low_water, intent_without_outcome }), n))
            },
            Ok((None, n)) => Ok((None, n)),
            Err(e) => Err(e),
        }
    }
}

/// What a tail field at some offset of a frame reads as.
pub enum TailReading<C> {
    /// The frame ends before the field.
    Absent,
    /// The field, and the offset behind it.
    Present(C, nat),
    /// Bytes are left, but they do not decode.
    Corrupt,
}

/// What the field of type `T` at `offset` of `frame` reads as.
pub open spec fn tail_reading<T: TailField>(frame: Seq<u8>, offset: nat) -> TailReading<
    T::Contents,
> {
    if offset >= frame.len() {
        TailReading::Absent
    } else {
        match T::decoding(frame.skip(offset as int)) {
            Some((contents, n)) => TailReading::Present(contents, offset + n),
            None => TailReading::Corrupt,
        }
    }
}

/// Decodes one field of the conditional tail at `offset`, advancing `offset`
/// by exactly the number of bytes that the field takes up.
///
/// Returns `Ok(None)` if the frame ends at `offset`: the peer stopped before
/// this field.
pub fn decode_tail_field<T: TailField>(
    buf: &[u8],
    offset: &mut usize,
    field: &'static str,
) -> (r: Result<Option<T>, AgentInfoDecodeError>)
    ensures
        match tail_reading::<T>(buf@, *old(offset) as nat) {
            TailReading::Absent => r == Ok::<Option<T>, AgentInfoDecodeError>(None)
                && *final(offset) == *old(offset),
            TailReading::Present(contents, next) => {
                &&& r matches Ok(Some(value))
                &&& value.contents() == contents
                &&& *final(offset) == next
                &&& next <= buf@.len()
            },
            TailReading::Corrupt => {
                &&& r matches Err(e)
                &&& e.part() == (Undecodable::Tail { field })
                &&& T::refuses(buf@.skip(*old(offset) as int), e.cause())
                &&& *final(offset) == *old(offset)
            },
        },
{
    if *offset >= buf.len() {
        return Ok(None);
    }
    let rest = slice_subrange(buf, *offset, buf.len());
    assert(rest@ =~= buf@.skip(*offset as int));
    match T::decode(rest) {
        Ok((value, consumed)) => {
            *offset = *offset + consumed;
            Ok(Some(value))
        },
        Err(source) => Err(AgentInfoDecodeError::Tail { field, source }),
    }
}

/// The agent information that only the base fields give: every tail field
/// reads as unknown.
pub open spec fn base_only(base: BaseParts) -> AgentInfoView {
    AgentInfoView {
        agent_name: base.0,
        agent_version: base.1,
        protocol_version: base.2,
        addr: base.3,
        status: base.4,
        capabilities: Seq::empty(),
        active_trust_epoch: None,
        manifest_formats: None,
        provisioning_fingerprint: None,
        audit_health: None,
    }
}

/// What a frame decodes to.
///
/// Each field of the tail is read behind the one before it. A frame that
/// ends at a field boundary leaves the remaining fields unknown.
pub open spec fn agent_info_decoding(frame: Seq<u8>) -> Result<AgentInfoView, Undecodable> {
    match base_decoding(frame) {
        None => Err(Undecodable::Base),
        Some((base, n)) => capabilities_onward(frame, n, base_only(base)),
    }
}

/// The readings from `capabilities` on.
pub open spec fn capabilities_onward(
    frame: Seq<u8>,
    offset: nat,
    info: AgentInfoView,
) -> Result<AgentInfoView, Undecodable> {
    match tail_reading::<TextSet>(frame, offset) {
        TailReading::Absent => Ok(info),
        TailReading::Present(capabilities, next) => epoch_onward(
            frame,
            next,
            AgentInfoView { capabilities, ..info },
        ),
        TailReading::Corrupt => Err(Undecodable::Tail { field: "capabilities" }),
    }
}

/// The readings from `active_trust_epoch` on.
pub open spec fn epoch_onward(frame: Seq<u8>, offset: nat, info: AgentInfoView) -> Result<
    AgentInfoView,
    Undecodable,
> {
    match tail_reading::<Option<u64>>(frame, offset) {
        TailReading::Absent => Ok(info),
        TailReading::Present(active_trust_epoch, next) => formats_onward(
            frame,
            next,
            AgentInfoView { active_trust_epoch, ..info },
        ),
        TailReading::Corrupt => Err(Undecodable::Tail { field: "active_trust_epoch" }),
    }
}

/// The readings from `manifest_formats` on.
pub open spec fn formats_onward(frame: Seq<u8>, offset: nat, info: AgentInfoView) -> Result<
    AgentInfoView,
    Undecodable,
> {
    match tail_reading::<Option<ManifestFormatRange>>(frame, offset) {
        TailReading::Absent => Ok(info),
        TailReading::Present(manifest_formats, next) => fingerprint_onward(
            frame,
            next,
            AgentInfoView { manifest_formats, ..info },
        ),
        TailReading::Corrupt => Err(Undecodable::Tail { field: "manifest_formats" }),
    }
}

/// The readings from `provisioning_fingerprint` on.
pub open spec fn fingerprint_onward(frame: Seq<u8>, offset: nat, info: AgentInfoView) -> Result<
    AgentInfoView,
    Undecodable,
> {
    match tail_reading::<Option<ProvisioningFingerprint>>(frame, offset) {
        TailReading::Absent => Ok(info),
        TailReading::Present(provisioning_fingerprint, next) => audit_onward(
            frame,
            next,
            AgentInfoView { provisioning_fingerprint, ..info },
        ),
        TailReading::Corrupt => Err(Undecodable::Tail { field: "provisioning_fingerprint" }),
    }
}

/// The reading of `audit_health`. Bytes behind it belong to fields of a
/// later version and are ignored.
pub open spec fn audit_onward(frame: Seq<u8>, offset: nat, info: AgentInfoView) -> Result<
    AgentInfoView,
    Undecodable,
> {
    match tail_reading::<Option<AuditHealth>>(frame, offset) {
        TailReading::Absent => Ok(info),
        TailReading::Present(audit_health, _) => Ok(AgentInfoView { audit_health, ..info }),
        TailReading::Corrupt => Err(Undecodable::Tail { field: "audit_health" }),
    }
}

/// The name of the tail field with the number `index`, counted from zero.
pub open spec fn tail_field_name(index: int) -> &'static str {
    if index == 0 {
        "capabilities"
    } else if index == 1 {
        "active_trust_epoch"
    } else if index == 2 {
        "manifest_formats"
    } else if index == 3 {
        "provisioning_fingerprint"
    } else {
        "audit_health"
    }
}

/// The offset behind what a field reads as, if it is there.
pub open spec fn offset_behind<C>(reading: TailReading<C>) -> Option<nat> {
    match reading {
        TailReading::Present(_, next) => Some(next),
        _ => None,
    }
}

/// The offset behind the tail field with the number `index` at `offset`, if
/// the field is there.
pub open spec fn offset_behind_field(frame: Seq<u8>, index: int, offset: nat) -> Option<nat> {
    if index == 0 {
        offset_behind(tail_reading::<TextSet>(frame, offset))
    } else if index == 1 {
        offset_behind(tail_reading::<Option<u64>>(frame, offset))
    } else if index == 2 {
        offset_behind(tail_reading::<Option<ManifestFormatRange>>(frame, offset))
    } else if index == 3 {
        offset_behind(tail_reading::<Option<ProvisioningFingerprint>>(frame, offset))
    } else {
        offset_behind(tail_reading::<Option<AuditHealth>>(frame, offset))
    }
}

/// The offset at which the tail field with the number `index` starts, if all
/// before it is there.
pub open spec fn field_offset(frame: Seq<u8>, index: int) -> Option<nat>
    decreases index,
{
    if index <= 0 {
        match base_decoding(frame) {
            Some((_, n)) => Some(n),
            None => None,
        }
    } else {
        match field_offset(frame, index - 1) {
            Some(offset) => offset_behind_field(frame, index - 1, offset),
            None => None,
        }
    }
}

/// A tail that is present but does not decode is an error, never an absent
/// tail: where all fields before some field are there and bytes are left that
/// do not decode as it, the frame is refused in the name of that field.
pub proof fn corrupt_tail_is_never_absent(frame: Seq<u8>, index: int, offset: nat)
    requires
        0 <= index < tail_fields(),
        field_offset(frame, index) == Some(offset),
        offset < frame.len(),
        offset_behind_field(frame, index, offset) is None,
    ensures
        agent_info_decoding(frame) == Err::<AgentInfoView, Undecodable>(
            Undecodable::Tail { field: tail_field_name(index) },
        ),
{
    reveal_with_fuel(field_offset, 6);
}

/// The base fields of [`AgentInfo`]: everything before the conditional tail.
#[derive(Clone, Debug)]
pub struct AgentInfoBase {
    pub agent_name: String,
    pub agent_version: String,
    pub protocol_version: String,
    pub addr: SocketAddr,
    pub status: Status,
}

/// Whether `source` is what bincode refuses the base fields of `frame` with.
pub closed spec fn refuses_base(frame: Seq<u8>, source: bincode::error::DecodeError) -> bool {
    exists|read: &[u8]|
        read@ == frame && #[trigger] call_ensures(decode_base, (read,), Err(source))
}

/// Whether all before the tail field with the number `index` is there, and
/// `source` is what bincode refuses that field with.
pub open spec fn refuses_field(
    frame: Seq<u8>,
    index: int,
    source: bincode::error::DecodeError,
) -> bool {
    match field_offset(frame, index) {
        Some(offset) => {
            let bytes = frame.skip(offset as int);
            if index == 0 {
                <TextSet as TailField>::refuses(bytes, source)
            } else if index == 1 {
                <Option<u64> as TailField>::refuses(bytes, source)
            } else if index == 2 {
                <Option<ManifestFormatRange> as TailField>::refuses(bytes, source)
            } else if index == 3 {
                <Option<ProvisioningFingerprint> as TailField>::refuses(bytes, source)
            } else {
                <Option<AuditHealth> as TailField>::refuses(bytes, source)
            }
        },
        None => false,
    }
}

/// Whether `source` is what bincode refuses that part of `frame` with.
pub open spec fn is_cause(
    frame: Seq<u8>,
    part: Undecodable,
    source: bincode::error::DecodeError,
) -> bool {
    match part {
        Undecodable::Base => refuses_base(frame, source),
        Undecodable::Tail { field } => exists|index: int|
            0 <= index < tail_fields() && field == tail_field_name(index)
                && #[trigger] refuses_field(frame, index, source),
    }
}

/// Decodes the base fields from the front of `buf`, with the number of bytes
/// that they take up.
pub fn decode_agent_info_base(buf: &[u8]) -> (r: Result<
    (AgentInfoBase, usize),
    AgentInfoDecodeError,
>)
    ensures
        match base_decoding(buf@) {
            Some((parts, n)) => {
                &&& r matches Ok((base, consumed))
                &&& base.agent_name@ == parts.0
                &&& base.agent_version@ == parts.1
                &&& base.protocol_version@ == parts.2
                &&& base.addr@ == parts.3
                &&& base.status == parts.4
                &&& consumed == n
                &&& n <= buf@.len()
            },
            None => {
                &&& r matches Err(e)
                &&& e.part() == Undecodable::Base
                &&& refuses_base(buf@, e.cause())
            },
        },
{
    match decode_base(buf) {
        Ok((wire, n)) => {
            let base = AgentInfoBase {
                agent_name: wire.agent_name,
                agent_version: wire.agent_version,
                protocol_version: wire.protocol_version,
                addr: wire.addr,
                status: wire.status,
            };
            Ok((base, n))
        },
        Err(e) => Err(AgentInfoDecodeError::Base(e)),
    }
}

/// Decodes an agent information frame, reading as much of the conditional
/// tail as the peer sent.
pub fn decode_agent_info(buf: &[u8]) -> (r: Result<AgentInfo, AgentInfoDecodeError>)
    ensures
        match agent_info_decoding(buf@) {
            Ok(info) => r matches Ok(value) && value@ == info,
            Err(part) => {
                &&& r matches Err(e)
                &&& e.part() == part
                &&& is_cause(buf@, part, e.cause())
            },
        },
{
    proof {
        reveal_with_fuel(field_offset, 6);
    }
    let (base, n) = match decode_agent_info_base(buf) {
        Ok(decoded) => decoded,
        Err(e) => return Err(e),
    };
    let mut offset: usize = n;
    let capabilities: TextSet = match decode_tail_field(buf, &mut offset, "capabilities") {
        Ok(Some(value)) => value,
        Ok(None) => TextSet::new(),
        Err(e) => {
            assert(refuses_field(buf@, 0, e.cause()));
            return Err(e);
        },
    };
    let active_trust_epoch: Option<u64> = match decode_tail_field(
        buf,
        &mut offset,
        "active_trust_epoch",
    ) {
        Ok(Some(value)) => value,
        Ok(None) => None,
        Err(e) => {
            assert(refuses_field(buf@, 1, e.cause()));
            return Err(e);
        },
    };
    let manifest_formats: Option<ManifestFormatRange> = match decode_tail_field(
        buf,
        &mut offset,
        "manifest_formats",
    ) {
        Ok(Some(value)) => value,
        Ok(None) => None,
        Err(e) => {
            assert(refuses_field(buf@, 2, e.cause()));
            return Err(e);
        },
    };
    let provisioning_fingerprint: Option<ProvisioningFingerprint> = match decode_tail_field(
        buf,
        &mut offset,
        "provisioning_fingerprint",
    ) {
        Ok(Some(value)) => value,
        Ok(None) => None,
        Err(e) => {
            assert(refuses_field(buf@, 3, e.cause()));
            return Err(e);
        },
    };
    let audit_health: Option<AuditHealth> = match decode_tail_field(
        buf,
        &mut offset,
        "audit_health",
    ) {
        Ok(Some(value)) => value,
        Ok(None) => None,
        Err(e) => {
            assert(refuses_field(buf@, 4, e.cause()));
            return Err(e);
        },
    };
    Ok(
        AgentInfo {
            agent_name: base.agent_name,
            agent_version: base.agent_version,
            protocol_version: base.protocol_version,
            addr: base.addr,
            status: base.status,
            capabilities,
            active_trust_epoch,
            manifest_formats,
            provisioning_fingerprint,
            audit_health,
        },
    )
}

/// The base fields of agent information.
pub open spec fn base_parts(info: AgentInfoView) -> BaseParts {
    (
        info.agent_name,
        info.agent_version,
        info.protocol_version,
        info.addr,
        info.status,
    )
}

/// The bytes of the tail field with the number `index`, counted from zero.
pub open spec fn tail_field_encoding(info: AgentInfoView, index: int) -> Seq<u8> {
    if index == 0 {
        texts_encoding(info.capabilities)
    } else if index == 1 {
        epoch_encoding(info.active_trust_epoch)
    } else if index == 2 {
        range_encoding(range_parts(info.manifest_formats))
    } else if index == 3 {
        fingerprint_encoding(info.provisioning_fingerprint)
    } else {
        audit_encoding(audit_parts(info.audit_health))
    }
}

/// The number of fields in the conditional tail.
pub open spec fn tail_fields() -> int {
    5
}

/// The bytes of the base followed by those of the first `fields` tail fields.
pub open spec fn prefix_encoding(info: AgentInfoView, fields: int) -> Seq<u8>
    decreases fields,
{
    if fields <= 0 {
        base_encoding(base_parts(info))
    } else {
        prefix_encoding(info, fields - 1) + tail_field_encoding(info, fields - 1)
    }
}

/// Whether the first `n` bytes of the frame end inside the base.
pub open spec fn cuts_base(info: AgentInfoView, n: int) -> bool {
    0 <= n < prefix_encoding(info, 0).len()
}

/// Whether the first `n` bytes of the frame end behind the first `fields`
/// tail fields.
pub open spec fn ends_field(info: AgentInfoView, fields: int, n: int) -> bool {
    n == prefix_encoding(info, fields).len()
}

/// Whether the first `n` bytes of the frame end inside the tail field with the
/// number `index`.
pub open spec fn cuts_field(info: AgentInfoView, index: int, n: int) -> bool {
    prefix_encoding(info, index).len() < n < prefix_encoding(info, index + 1).len()
}

/// The agent information in which only the base and the first `fields` tail
/// fields are known.
pub open spec fn known_prefix(info: AgentInfoView, fields: int) -> AgentInfoView {
    AgentInfoView {
        capabilities: if fields > 0 {
            info.capabilities
        } else {
            Seq::empty()
        },
        active_trust_epoch: if fields > 1 {
            info.active_trust_epoch
        } else {
            None
        },
        manifest_formats: if fields > 2 {
            info.manifest_formats
        } else {
            None
        },
        provisioning_fingerprint: if fields > 3 {
            info.provisioning_fingerprint
        } else {
            None
        },
        audit_health: if fields > 4 {
            info.audit_health
        } else {
            None
        },
        ..info
    }
}

/// Whether each part of `info` is read back from its own bytes, whatever
/// follows them.
spec fn parts_read_back(info: AgentInfoView) -> bool {
    &&& forall|rest: Seq<u8>| #[trigger]
        base_decoding(base_encoding(base_parts(info)) + rest) == Some(
            (base_parts(info), base_encoding(base_parts(info)).len()),
        )
    &&& forall|i: int|
        0 <= i < tail_fields() ==> (#[trigger] tail_field_encoding(info, i)).len() > 0
    &&& forall|rest: Seq<u8>| #[trigger]
        texts_decoding(tail_field_encoding(info, 0) + rest) == Some(
            (info.capabilities, tail_field_encoding(info, 0).len()),
        )
    &&& forall|rest: Seq<u8>| #[trigger]
        epoch_decoding(tail_field_encoding(info, 1) + rest) == Some(
            (info.active_trust_epoch, tail_field_encoding(info, 1).len()),
        )
    &&& forall|rest: Seq<u8>| #[trigger]
        range_decoding(tail_field_encoding(info, 2) + rest) == Some(
            (range_parts(info.manifest_formats), tail_field_encoding(info, 2).len()),
        )
    &&& forall|rest: Seq<u8>| #[trigger]
        fingerprint_decoding(tail_field_encoding(info, 3) + rest) == Some(
            (info.provisioning_fingerprint, tail_field_encoding(info, 3).len()),
        )
    &&& forall|rest: Seq<u8>| #[trigger]
        audit_decoding(tail_field_encoding(info, 4) + rest) == Some(
            (audit_parts(info.audit_health), tail_field_encoding(info, 4).len()),
        )
}

/// Whether no part of `info` decodes from its own bytes with the last of them
/// cut off.
spec fn parts_need_all_bytes(info: AgentInfoView) -> bool {
    &&& forall|k: int|
        0 <= k < base_encoding(base_parts(info)).len() ==> #[trigger] base_decoding(
            base_encoding(base_parts(info)).take(k),
        ) is None
    &&& forall|k: int|
        0 <= k < tail_field_encoding(info, 0).len() ==> #[trigger] texts_decoding(
            tail_field_encoding(info, 0).take(k),
        ) is None
    &&& forall|k: int|
        0 <= k < tail_field_encoding(info, 1).len() ==> #[trigger] epoch_decoding(
            tail_field_encoding(info, 1).take(k),
        ) is None
    &&& forall|k: int|
        0 <= k < tail_field_encoding(info, 2).len() ==> #[trigger] range_decoding(
            tail_field_encoding(info, 2).take(k),
        ) is None
    &&& forall|k: int|
        0 <= k < tail_field_encoding(info, 3).len() ==> #[trigger] fingerprint_decoding(
            tail_field_encoding(info, 3).take(k),
        ) is None
    &&& forall|k: int|
        0 <= k < tail_field_encoding(info, 4).len() ==> #[trigger] audit_decoding(
            tail_field_encoding(info, 4).take(k),
        ) is None
}

/// The bytes of the tail fields from number `from` up to, and without,
/// number `to`, followed by `rest`.
spec fn tail_bytes(info: AgentInfoView, from: int, to: int, rest: Seq<u8>) -> Seq<u8>
    decreases to - from,
{
    if from >= to {
        rest
    } else {
        tail_field_encoding(info, from) + tail_bytes(info, from + 1, to, rest)
    }
}

proof fn lemma_frame_splits(info: AgentInfoView, k: int, fields: int, rest: Seq<u8>)
    requires
        0 <= k <= fields,
    ensures
        prefix_encoding(info, fields) + rest == prefix_encoding(info, k) + tail_bytes(
            info,
            k,
            fields,
            rest,
        ),
    decreases fields - k,
{
    if k < fields {
        lemma_frame_splits(info, k + 1, fields, rest);
        assert(prefix_encoding(info, k + 1) + tail_bytes(info, k + 1, fields, rest)
            =~= prefix_encoding(info, k) + (tail_field_encoding(info, k) + tail_bytes(
            info,
            k + 1,
            fields,
            rest,
        )));
    }
}

/// The tail field number `k` of a frame that holds `fields` of them starts
/// behind the first `k` fields, and what is left there is its bytes and
/// those that follow.
proof fn lemma_field_at(info: AgentInfoView, k: int, fields: int, rest: Seq<u8>)
    requires
        parts_read_back(info),
        0 <= k <= fields <= tail_fields(),
        fields < tail_fields() ==> rest.len() == 0,
    ensures
        ({
            let frame = prefix_encoding(info, fields) + rest;
            let offset = prefix_encoding(info, k).len();
            &&& k < fields ==> offset < frame.len() && frame.skip(offset as int)
                == tail_field_encoding(info, k) + tail_bytes(info, k + 1, fields, rest)
            &&& k < fields ==> offset + tail_field_encoding(info, k).len() == prefix_encoding(
                info,
                k + 1,
            ).len()
            &&& k == fields && fields < tail_fields() ==> offset >= frame.len()
        }),
{
    lemma_frame_splits(info, k, fields, rest);
    let frame = prefix_encoding(info, fields) + rest;
    let offset = prefix_encoding(info, k).len();
    assert(frame.skip(offset as int) =~= tail_bytes(info, k, fields, rest));
    if k < fields {
        assert(tail_field_encoding(info, k).len() > 0);
        assert(tail_bytes(info, k, fields, rest) == tail_field_encoding(info, k) + tail_bytes(
            info,
            k + 1,
            fields,
            rest,
        ));
    }
}

proof fn lemma_prefix_decodes(info: AgentInfoView, fields: int, rest: Seq<u8>)
    requires
        parts_read_back(info),
        0 <= fields <= tail_fields(),
        fields < tail_fields() ==> rest.len() == 0,
    ensures
        agent_info_decoding(prefix_encoding(info, fields) + rest) == Ok::<
            AgentInfoView,
            Undecodable,
        >(known_prefix(info, fields)),
{
    let frame = prefix_encoding(info, fields) + rest;
    lemma_frame_splits(info, 0, fields, rest);
    assert(range_of(range_parts(info.manifest_formats)) == info.manifest_formats);
    assert(audit_of(audit_parts(info.audit_health)) == info.audit_health);
    let n = prefix_encoding(info, 0).len();
    assert(base_decoding(frame) == Some((base_parts(info), n)));
    lemma_field_at(info, 0, fields, rest);
    if fields > 0 {
        lemma_field_at(info, 1, fields, rest);
    }
    if fields > 1 {
        lemma_field_at(info, 2, fields, rest);
    }
    if fields > 2 {
        lemma_field_at(info, 3, fields, rest);
    }
    if fields > 3 {
        lemma_field_at(info, 4, fields, rest);
    }
}

/// In a frame that starts with the base and the first `fields` tail fields,
/// each of those, and what follows them, starts where the ones before it end.
proof fn lemma_field_offset(info: AgentInfoView, k: int, fields: int, rest: Seq<u8>)
    requires
        parts_read_back(info),
        0 <= k <= fields <= tail_fields(),
    ensures
        field_offset(prefix_encoding(info, fields) + rest, k) == Some(
            prefix_encoding(info, k).len(),
        ),
    decreases k,
{
    let frame = prefix_encoding(info, fields) + rest;
    if k == 0 {
        lemma_frame_splits(info, 0, fields, rest);
    } else {
        lemma_field_offset(info, k - 1, fields, rest);
        lemma_frame_splits(info, k - 1, fields, rest);
        let offset = prefix_encoding(info, k - 1).len();
        let bytes = tail_field_encoding(info, k - 1);
        assert(bytes.len() > 0);
        assert(tail_bytes(info, k - 1, fields, rest) == bytes + tail_bytes(info, k, fields, rest));
        assert(frame.skip(offset as int) =~= bytes + tail_bytes(info, k, fields, rest));
        assert(prefix_encoding(info, k).len() == offset + bytes.len());
    }
}

/// The frame with `fields` tail fields is the front of the one with all of
/// them.
proof fn lemma_prefix_is_front(info: AgentInfoView, fields: int)
    requires
        0 <= fields <= tail_fields(),
    ensures
        prefix_encoding(info, fields).len() <= prefix_encoding(info, tail_fields()).len(),
        prefix_encoding(info, tail_fields()).take(prefix_encoding(info, fields).len() as int)
            == prefix_encoding(info, fields),
    decreases tail_fields() - fields,
{
    let whole = prefix_encoding(info, tail_fields());
    let front = prefix_encoding(info, fields);
    if fields < tail_fields() {
        lemma_prefix_is_front(info, fields + 1);
        let next = prefix_encoding(info, fields + 1);
        assert(next =~= front + tail_field_encoding(info, fields));
        assert(whole.take(front.len() as int) =~= next.take(front.len() as int));
        assert(next.take(front.len() as int) =~= front);
    } else {
        assert(whole.take(whole.len() as int) =~= whole);
    }
}

proof fn lemma_cut_base(info: AgentInfoView, n: int)
    requires
        parts_need_all_bytes(info),
        cuts_base(info, n),
    ensures
        agent_info_decoding(prefix_encoding(info, tail_fields()).take(n)) == Err::<
            AgentInfoView,
            Undecodable,
        >(Undecodable::Base),
{
    lemma_prefix_is_front(info, 0);
    assert(prefix_encoding(info, tail_fields()).take(n) =~= base_encoding(base_parts(info)).take(
        n,
    ));
}

proof fn lemma_cut_field(info: AgentInfoView, index: int, n: int)
    requires
        parts_read_back(info),
        parts_need_all_bytes(info),
        0 <= index < tail_fields(),
        cuts_field(info, index, n),
    ensures
        agent_info_decoding(prefix_encoding(info, tail_fields()).take(n)) == Err::<
            AgentInfoView,
            Undecodable,
        >(Undecodable::Tail { field: tail_field_name(index) }),
{
    let front = prefix_encoding(info, index);
    let bytes = tail_field_encoding(info, index);
    let k = n - front.len();
    let rest = bytes.take(k);
    let frame = prefix_encoding(info, tail_fields()).take(n);
    lemma_prefix_is_front(info, index + 1);
    assert(prefix_encoding(info, index + 1) =~= front + bytes);
    assert(frame =~= (front + bytes).take(n));
    assert(frame =~= front + rest);
    lemma_field_offset(info, index, index, rest);
    assert(frame.skip(front.len() as int) =~= rest);
    corrupt_tail_is_never_absent(frame, index, front.len());
}

/// Every cut of a frame is at a boundary or inside a part, and never both.
proof fn lemma_cut_is_somewhere(info: AgentInfoView, fields: int, n: int)
    requires
        0 <= fields <= tail_fields(),
        0 <= n <= prefix_encoding(info, fields).len(),
    ensures
        cuts_base(info, n) || (exists|f: int| 0 <= f <= fields && #[trigger] ends_field(info, f, n))
            || (exists|f: int| 0 <= f < fields && #[trigger] cuts_field(info, f, n)),
    decreases fields,
{
    if ends_field(info, fields, n) {
    } else if fields > 0 {
        if n <= prefix_encoding(info, fields - 1).len() {
            lemma_cut_is_somewhere(info, fields - 1, n);
        } else {
            assert(cuts_field(info, fields - 1, n));
        }
    }
}

/// Encodes agent information as the base followed by the full tail.
///
/// Whatever follows the bytes is ignored by the decode, and a peer that
/// stops at a field boundary is read with the remaining fields unknown. A
/// decoder that knows only the base reads the base, and one that knows only
/// `capabilities` besides reads those: each field takes up exactly its own
/// bytes.
///
/// Of a frame that is cut off, what is left decodes only if the cut is at a
/// field boundary. A cut inside the base or inside a tail field is an error in
/// the name of that part, so that what was cut is never read as absent.
pub fn encode_agent_info(info: &AgentInfo) -> (bytes: Vec<u8>)
    ensures
        bytes@ == prefix_encoding(info@, tail_fields()),
        forall|rest: Seq<u8>| #[trigger]
            agent_info_decoding(bytes@ + rest) == Ok::<AgentInfoView, Undecodable>(info@),
        forall|rest: Seq<u8>| #[trigger]
            base_decoding(bytes@ + rest) == Some(
                (base_parts(info@), prefix_encoding(info@, 0).len()),
            ),
        forall|rest: Seq<u8>|
            tail_reading::<TextSet>(
                #[trigger] (bytes@ + rest),
                prefix_encoding(info@, 0).len(),
            ) == TailReading::Present(info@.capabilities, prefix_encoding(info@, 1).len()),
        forall|fields: int|
            0 <= fields <= tail_fields() ==> agent_info_decoding(
                #[trigger] prefix_encoding(info@, fields),
            ) == Ok::<AgentInfoView, Undecodable>(known_prefix(info@, fields)),
        forall|n: int| #[trigger]
            cuts_base(info@, n) ==> agent_info_decoding(bytes@.take(n)) == Err::<
                AgentInfoView,
                Undecodable,
            >(Undecodable::Base),
        forall|fields: int, n: int|
            0 <= fields <= tail_fields() && #[trigger] ends_field(info@, fields, n)
                ==> agent_info_decoding(bytes@.take(n)) == Ok::<AgentInfoView, Undecodable>(
                known_prefix(info@, fields),
            ),
        forall|index: int, n: int|
            0 <= index < tail_fields() && #[trigger] cuts_field(info@, index, n)
                ==> agent_info_decoding(bytes@.take(n)) == Err::<AgentInfoView, Undecodable>(
                Undecodable::Tail { field: tail_field_name(index) },
            ),
        forall|n: int|
            0 <= n <= bytes@.len() ==> (#[trigger] agent_info_decoding(bytes@.take(n)) is Ok
                <==> exists|fields: int|
                0 <= fields <= tail_fields() && #[trigger] ends_field(info@, fields, n)),
{
    let base = WireBase {
        agent_name: info.agent_name.clone(),
        agent_version: info.agent_version.clone(),
        protocol_version: info.protocol_version.clone(),
        addr: info.addr,
        status: info.status,
    };
    let range = match &info.manifest_formats {
        Some(formats) => Some((formats.min, formats.max)),
        None => None,
    };
    let fingerprint = match &info.provisioning_fingerprint {
        Some(fingerprint) => Some((fingerprint.components.entries(), &fingerprint.domain)),
        None => None,
    };
    let audit = match &info.audit_health {
        Some(audit) => Some((audit.below_low_water, audit.intent_without_outcome)),
        None => None,
    };
    let mut bytes = written(encode_base(&base));
    let mut capabilities_bytes = written(encode_texts(info.capabilities.items().as_slice()));
    let mut epoch_bytes = written(encode_epoch(info.active_trust_epoch));
    let mut range_bytes = written(encode_range(range));
    let mut fingerprint_bytes = written(encode_fingerprint(fingerprint));
    let mut audit_bytes = written(encode_audit(audit));
    proof {
        epoch_reads_back(info@.active_trust_epoch);
        range_reads_back(range_parts(info@.manifest_formats));
        audit_reads_back(audit_parts(info@.audit_health));
        assert(base@ == base_parts(info@));
        assert(parts_read_back(info@));
        assert(parts_need_all_bytes(info@));
    }
    bytes.append(&mut capabilities_bytes);
    bytes.append(&mut epoch_bytes);
    bytes.append(&mut range_bytes);
    bytes.append(&mut fingerprint_bytes);
    bytes.append(&mut audit_bytes);
    proof {
        reveal_with_fuel(prefix_encoding, 6);
        assert(known_prefix(info@, tail_fields()) == info@);
        assert forall|rest: Seq<u8>| #[trigger]
            agent_info_decoding(bytes@ + rest) == Ok::<AgentInfoView, Undecodable>(info@) by {
            lemma_prefix_decodes(info@, tail_fields(), rest);
        }
        assert forall|rest: Seq<u8>| #[trigger]
            base_decoding(bytes@ + rest) == Some(
                (base_parts(info@), prefix_encoding(info@, 0).len()),
            ) by {
            lemma_frame_splits(info@, 0, tail_fields(), rest);
        }
        assert forall|rest: Seq<u8>|
            tail_reading::<TextSet>(
                #[trigger] (bytes@ + rest),
                prefix_encoding(info@, 0).len(),
            ) == TailReading::Present(info@.capabilities, prefix_encoding(info@, 1).len()) by {
            lemma_field_at(info@, 0, tail_fields(), rest);
        }
        assert forall|fields: int| 0 <= fields <= tail_fields() implies agent_info_decoding(
            #[trigger] prefix_encoding(info@, fields),
        ) == Ok::<AgentInfoView, Undecodable>(known_prefix(info@, fields)) by {
            lemma_prefix_decodes(info@, fields, Seq::empty());
            assert(prefix_encoding(info@, fields) + Seq::<u8>::empty() =~= prefix_encoding(
                info@,
                fields,
            ));
        }
        assert forall|n: int| #[trigger] cuts_base(info@, n) implies agent_info_decoding(
            bytes@.take(n),
        ) == Err::<AgentInfoView, Undecodable>(Undecodable::Base) by {
            lemma_cut_base(info@, n);
        }
        assert forall|fields: int, n: int|
            0 <= fields <= tail_fields() && #[trigger] ends_field(
                info@,
                fields,
                n,
            ) implies agent_info_decoding(bytes@.take(n)) == Ok::<AgentInfoView, Undecodable>(
            known_prefix(info@, fields),
        ) by {
            lemma_prefix_is_front(info@, fields);
        }
        assert forall|index: int, n: int|
            0 <= index < tail_fields() && #[trigger] cuts_field(
                info@,
                index,
                n,
            ) implies agent_info_decoding(bytes@.take(n)) == Err::<AgentInfoView, Undecodable>(
            Undecodable::Tail { field: tail_field_name(index) },
        ) by {
            lemma_cut_field(info@, index, n);
        }
        assert forall|n: int| 0 <= n <= bytes@.len() implies (#[trigger] agent_info_decoding(
            bytes@.take(n),
        ) is Ok <==> exists|fields: int|
            0 <= fields <= tail_fields() && #[trigger] ends_field(info@, fields, n)) by {
            lemma_cut_is_somewhere(info@, tail_fields(), n);
        }
    }
    bytes
}

/// Whether two addresses are of the same family and have the same octets and
/// the same port.
pub open spec fn same_addr(a: SocketAddr, b: SocketAddr) -> bool {
    match (a, b) {
        (SocketAddr::V4(x, p), SocketAddr::V4(y, q)) => x@ == y@ && p == q,
        (SocketAddr::V6(x, p), SocketAddr::V6(y, q)) => x@ == y@ && p == q,
        _ => false,
    }
}

/// Whether two optional fingerprints have the same entries and the same
/// domain, or are both unknown.
pub open spec fn same_fingerprint(
    a: Option<ProvisioningFingerprint>,
    b: Option<ProvisioningFingerprint>,
) -> bool {
    match (a, b) {
        (Some(x), Some(y)) => x.components@ == y.components@ && x.domain@ == y.domain@,
        (None, None) => true,
        _ => false,
    }
}

/// Whether the base fields of two agents are the same.
pub open spec fn same_base(a: AgentInfo, b: AgentInfo) -> bool {
    &&& a.agent_name@ == b.agent_name@
    &&& a.agent_version@ == b.agent_version@
    &&& a.protocol_version@ == b.protocol_version@
    &&& same_addr(a.addr, b.addr)
    &&& a.status == b.status
}

/// What an agent sends is what a manager reads, field by field, whatever
/// follows on the stream: the fields of a later version are ignored.
pub proof fn agent_information_reads_back(
    info: AgentInfo,
    bytes: Vec<u8>,
    rest: Seq<u8>,
    frame: &[u8],
    decoded: Result<AgentInfo, AgentInfoDecodeError>,
)
    requires
        call_ensures(encode_agent_info, (&info,), bytes),
        frame@ == bytes@ + rest,
        call_ensures(decode_agent_info, (frame,), decoded),
    ensures
        ({
            &&& decoded matches Ok(read)
            &&& same_base(read, info)
            &&& read.capabilities@ == info.capabilities@
            &&& read.active_trust_epoch == info.active_trust_epoch
            &&& read.manifest_formats == info.manifest_formats
            &&& same_fingerprint(read.provisioning_fingerprint, info.provisioning_fingerprint)
            &&& read.audit_health == info.audit_health
        }),
{
    assert(agent_info_decoding(bytes@ + rest) == Ok::<AgentInfoView, Undecodable>(info@));
}

/// The frame is the base, the capabilities, the trust epoch, the manifest
/// formats, the fingerprint and the audit health, in this order and with
/// nothing in between.
pub proof fn frame_is_its_fields_in_order(info: AgentInfo, bytes: Vec<u8>)
    requires
        call_ensures(encode_agent_info, (&info,), bytes),
    ensures
        bytes@ == base_encoding(
            (
                info.agent_name@,
                info.agent_version@,
                info.protocol_version@,
                match info.addr {
                    SocketAddr::V4(octets, port) => Ok((octets@, port)),
                    SocketAddr::V6(octets, port) => Err((octets@, port)),
                },
                info.status,
            ),
        ) + texts_encoding(info.capabilities@) + epoch_encoding(info.active_trust_epoch)
            + range_encoding(
            match info.manifest_formats {
                Some(formats) => Some((formats.min, formats.max)),
                None => None,
            },
        ) + fingerprint_encoding(
            match info.provisioning_fingerprint {
                Some(fingerprint) => Some((fingerprint.components@, fingerprint.domain@)),
                None => None,
            },
        ) + audit_encoding(
            match info.audit_health {
                Some(audit) => Some((audit.below_low_water, audit.intent_without_outcome)),
                None => None,
            },
        ),
{
    reveal_with_fuel(prefix_encoding, 6);
}

/// A frame that stops behind the first `fields` tail fields is read with those
/// fields, and with every later one unknown.
pub proof fn shorter_tail_leaves_later_fields_unknown(
    info: AgentInfo,
    bytes: Vec<u8>,
    fields: int,
    frame: &[u8],
    decoded: Result<AgentInfo, AgentInfoDecodeError>,
)
    requires
        call_ensures(encode_agent_info, (&info,), bytes),
        0 <= fields <= 5,
        frame@ == prefix_encoding(info@, fields),
        call_ensures(decode_agent_info, (frame,), decoded),
    ensures
        ({
            &&& decoded matches Ok(read)
            &&& same_base(read, info)
            &&& read.capabilities@ == if fields >= 1 {
                info.capabilities@
            } else {
                Seq::empty()
            }
            &&& read.active_trust_epoch == if fields >= 2 {
                info.active_trust_epoch
            } else {
                None
            }
            &&& read.manifest_formats == if fields >= 3 {
                info.manifest_formats
            } else {
                None
            }
            &&& if fields >= 4 {
                same_fingerprint(read.provisioning_fingerprint, info.provisioning_fingerprint)
            } else {
                read.provisioning_fingerprint is None
            }
            &&& read.audit_health == if fields >= 5 {
                info.audit_health
            } else {
                None
            }
        }),
{
    assert(agent_info_decoding(prefix_encoding(info@, fields)) == Ok::<AgentInfoView, Undecodable>(
        known_prefix(info@, fields),
    ));
}

/// Whether bytes are left at `offset`.
pub open spec fn is_left(frame: Seq<u8>, offset: Option<nat>) -> bool {
    offset is Some && offset->0 < frame.len()
}

/// Every field that is read is what its own bytes hold. A field is there if
/// all before it are and bytes are left; one that is not there is unknown.
pub proof fn fields_are_what_their_bytes_hold(
    frame: &[u8],
    info: AgentInfo,
    decoded: Result<AgentInfo, AgentInfoDecodeError>,
)
    requires
        call_ensures(decode_agent_info, (frame,), decoded),
        decoded matches Ok(read) && read == info,
    ensures
        ({
            &&& base_decoding(frame@) matches Some((base, _))
            &&& info.agent_name@ == base.0
            &&& info.agent_version@ == base.1
            &&& info.protocol_version@ == base.2
            &&& match info.addr {
                SocketAddr::V4(octets, port) => base.3 == Ok::<(Seq<u8>, u16), (Seq<u8>, u16)>(
                    (octets@, port),
                ),
                SocketAddr::V6(octets, port) => base.3 == Err::<(Seq<u8>, u16), (Seq<u8>, u16)>(
                    (octets@, port),
                ),
            }
            &&& info.status == base.4
        }),
        is_left(frame@, field_offset(frame@, 0)) ==> (texts_decoding(
            frame@.skip(field_offset(frame@, 0)->0 as int),
        ) matches Some((entries, _)) && info.capabilities@ == entries),
        !is_left(frame@, field_offset(frame@, 0)) ==> info.capabilities@.len() == 0,
        is_left(frame@, field_offset(frame@, 1)) ==> (epoch_decoding(
            frame@.skip(field_offset(frame@, 1)->0 as int),
        ) matches Some((epoch, _)) && info.active_trust_epoch == epoch),
        !is_left(frame@, field_offset(frame@, 1)) ==> info.active_trust_epoch is None,
        is_left(frame@, field_offset(frame@, 2)) ==> (range_decoding(
            frame@.skip(field_offset(frame@, 2)->0 as int),
        ) matches Some((range, _)) && match info.manifest_formats {
            Some(formats) => range == Some((formats.min, formats.max)),
            None => range is None,
        }),
        !is_left(frame@, field_offset(frame@, 2)) ==> info.manifest_formats is None,
        is_left(frame@, field_offset(frame@, 3)) ==> (fingerprint_decoding(
            frame@.skip(field_offset(frame@, 3)->0 as int),
        ) matches Some((parts, _)) && match info.provisioning_fingerprint {
            Some(fingerprint) => parts == Some((fingerprint.components@, fingerprint.domain@)),
            None => parts is None,
        }),
        !is_left(frame@, field_offset(frame@, 3)) ==> info.provisioning_fingerprint is None,
        is_left(frame@, field_offset(frame@, 4)) ==> (audit_decoding(
            frame@.skip(field_offset(frame@, 4)->0 as int),
        ) matches Some((parts, _)) && match info.audit_health {
            Some(audit) => parts == Some((audit.below_low_water, audit.intent_without_outcome)),
            None => parts is None,
        }),
        !is_left(frame@, field_offset(frame@, 4)) ==> info.audit_health is None,
{
    reveal_with_fuel(field_offset, 6);
}

/// The first tail field starts behind the base, and every other one behind the
/// field before it, by exactly the bytes that the field takes up.
pub proof fn fields_start_where_the_one_before_ends(frame: Seq<u8>)
    ensures
        field_offset(frame, 0) == match base_decoding(frame) {
            Some((_, taken)) => Some(taken),
            None => None,
        },
        is_left(frame, field_offset(frame, 0)) ==> match texts_decoding(
            frame.skip(field_offset(frame, 0)->0 as int),
        ) {
            Some((_, taken)) => field_offset(frame, 1) == Some(field_offset(frame, 0)->0 + taken),
            None => field_offset(frame, 1) is None,
        },
        is_left(frame, field_offset(frame, 1)) ==> match epoch_decoding(
            frame.skip(field_offset(frame, 1)->0 as int),
        ) {
            Some((_, taken)) => field_offset(frame, 2) == Some(field_offset(frame, 1)->0 + taken),
            None => field_offset(frame, 2) is None,
        },
        is_left(frame, field_offset(frame, 2)) ==> match range_decoding(
            frame.skip(field_offset(frame, 2)->0 as int),
        ) {
            Some((_, taken)) => field_offset(frame, 3) == Some(field_offset(frame, 2)->0 + taken),
            None => field_offset(frame, 3) is None,
        },
        is_left(frame, field_offset(frame, 3)) ==> match fingerprint_decoding(
            frame.skip(field_offset(frame, 3)->0 as int),
        ) {
            Some((_, taken)) => field_offset(frame, 4) == Some(field_offset(frame, 3)->0 + taken),
            None => field_offset(frame, 4) is None,
        },
        !is_left(frame, field_offset(frame, 0)) ==> field_offset(frame, 1) is None,
        !is_left(frame, field_offset(frame, 1)) ==> field_offset(frame, 2) is None,
        !is_left(frame, field_offset(frame, 2)) ==> field_offset(frame, 3) is None,
        !is_left(frame, field_offset(frame, 3)) ==> field_offset(frame, 4) is None,
{
    reveal_with_fuel(field_offset, 6);
}

/// A frame is refused exactly if its base does not decode, or bytes are left
/// for a tail field that do not decode as it. The refusal names the part.
pub proof fn exactly_the_corrupt_frames_are_refused(
    frame: &[u8],
    decoded: Result<AgentInfo, AgentInfoDecodeError>,
)
    requires
        call_ensures(decode_agent_info, (frame,), decoded),
    ensures
        (decoded matches Err(e) && e is Base) <==> base_decoding(frame@) is None,
        (decoded matches Err(e) && e is Tail) <==> {
            ||| is_left(frame@, field_offset(frame@, 0)) && texts_decoding(
                frame@.skip(field_offset(frame@, 0)->0 as int),
            ) is None
            ||| is_left(frame@, field_offset(frame@, 1)) && epoch_decoding(
                frame@.skip(field_offset(frame@, 1)->0 as int),
            ) is None
            ||| is_left(frame@, field_offset(frame@, 2)) && range_decoding(
                frame@.skip(field_offset(frame@, 2)->0 as int),
            ) is None
            ||| is_left(frame@, field_offset(frame@, 3)) && fingerprint_decoding(
                frame@.skip(field_offset(frame@, 3)->0 as int),
            ) is None
            ||| is_left(frame@, field_offset(frame@, 4)) && audit_decoding(
                frame@.skip(field_offset(frame@, 4)->0 as int),
            ) is None
        },
        is_left(frame@, field_offset(frame@, 0)) && texts_decoding(
            frame@.skip(field_offset(frame@, 0)->0 as int),
        ) is None ==> decoded->Err_0->field == "capabilities",
        is_left(frame@, field_offset(frame@, 1)) && epoch_decoding(
            frame@.skip(field_offset(frame@, 1)->0 as int),
        ) is None ==> decoded->Err_0->field == "active_trust_epoch",
        is_left(frame@, field_offset(frame@, 2)) && range_decoding(
            frame@.skip(field_offset(frame@, 2)->0 as int),
        ) is None ==> decoded->Err_0->field == "manifest_formats",
        is_left(frame@, field_offset(frame@, 3)) && fingerprint_decoding(
            frame@.skip(field_offset(frame@, 3)->0 as int),
        ) is None ==> decoded->Err_0->field == "provisioning_fingerprint",
        is_left(frame@, field_offset(frame@, 4)) && audit_decoding(
            frame@.skip(field_offset(frame@, 4)->0 as int),
        ) is None ==> decoded->Err_0->field == "audit_health",
{
    reveal_with_fuel(field_offset, 6);
}

/// The base is read on its own as it is read with the tail.
pub proof fn base_is_read_alike(
    frame: &[u8],
    base: Result<(AgentInfoBase, usize), AgentInfoDecodeError>,
    decoded: Result<AgentInfo, AgentInfoDecodeError>,
)
    requires
        call_ensures(decode_agent_info_base, (frame,), base),
        call_ensures(decode_agent_info, (frame,), decoded),
    ensures
        base is Err <==> (decoded matches Err(e) && e is Base),
        base matches Err(e) ==> e is Base,
        base matches Ok((read, taken)) ==> field_offset(frame@, 0) == Some(taken as nat),
        decoded matches Ok(info) ==> {
            &&& base matches Ok((read, _))
            &&& read.agent_name@ == info.agent_name@
            &&& read.agent_version@ == info.agent_version@
            &&& read.protocol_version@ == info.protocol_version@
            &&& same_addr(read.addr, info.addr)
            &&& read.status == info.status
        },
{
}

/// A tail field is read from what is left at the offset, which then moves
/// behind it. At the end of the frame there is no field, and where the field
/// does not decode it is refused under the name given; the offset then stays.
pub proof fn tail_field_moves_the_offset<T: TailField>(
    frame: &[u8],
    offset: &mut usize,
    field: &'static str,
    r: Result<Option<T>, AgentInfoDecodeError>,
)
    requires
        call_ensures(decode_tail_field::<T>, (frame, offset, field), r),
    ensures
        *old(offset) >= frame@.len() ==> r == Ok::<Option<T>, AgentInfoDecodeError>(None)
            && *final(offset) == *old(offset),
        *old(offset) < frame@.len() ==> match T::decoding(frame@.skip(*old(offset) as int)) {
            Some((contents, taken)) => {
                &&& r matches Ok(Some(value))
                &&& value.contents() == contents
                &&& *final(offset) == *old(offset) + taken
            },
            None => {
                &&& r matches Err(AgentInfoDecodeError::Tail { field: named, .. })
                &&& named == field
                &&& *final(offset) == *old(offset)
            },
        },
{
}

/// What the tail fields are read from, and what they hold.
pub proof fn tail_fields_are_read_by_their_types(
    bytes: Seq<u8>,
    capabilities: TextSet,
    epoch: Option<u64>,
    formats: Option<ManifestFormatRange>,
    fingerprint: Option<ProvisioningFingerprint>,
    audit: Option<AuditHealth>,
)
    ensures
        capabilities.contents() == capabilities@,
        <TextSet as TailField>::decoding(bytes) == texts_decoding(bytes),
        epoch.contents() == epoch,
        <Option<u64> as TailField>::decoding(bytes) == epoch_decoding(bytes),
        formats.contents() == formats,
        <Option<ManifestFormatRange> as TailField>::decoding(bytes) is Some <==> range_decoding(
            bytes,
        ) is Some,
        range_decoding(bytes) matches Some((range, taken)) ==> <Option<
            ManifestFormatRange,
        > as TailField>::decoding(bytes) == Some(
            (
                match range {
                    Some((min, max)) => Some(ManifestFormatRange { min, max }),
                    None => None,
                },
                taken,
            ),
        ),
        fingerprint matches Some(f) ==> fingerprint.contents() == Some((f.components@, f.domain@)),
        fingerprint is None ==> fingerprint.contents() is None,
        <Option<ProvisioningFingerprint> as TailField>::decoding(bytes) == fingerprint_decoding(
            bytes,
        ),
        audit.contents() == audit,
        <Option<AuditHealth> as TailField>::decoding(bytes) is Some <==> audit_decoding(
            bytes,
        ) is Some,
        audit_decoding(bytes) matches Some((parts, taken)) ==> <Option<
            AuditHealth,
        > as TailField>::decoding(bytes) == Some(
            (
                match parts {
                    Some((below_low_water, intent_without_outcome)) => Some(
                        AuditHealth { below_low_water, intent_without_outcome },
                    ),
                    None => None,
                },
                taken,
            ),
        ),
{
}

/// The text of a refusal names the part and ends with the cause.
pub proof fn refusals_name_the_part(e: AgentInfoDecodeError, cause: &str, text: String)
    requires
        call_ensures(AgentInfoDecodeError::message_with, (&e, cause), text),
    ensures
        e is Base ==> text@ == "cannot decode the agent information: "@ + cause@,
        e matches AgentInfoDecodeError::Tail { field, .. } ==> text@ == "cannot decode `"@ + field@
            + "` in the agent information tail: "@ + cause@,
{
}

/// The text of a refusal is the one with bincode's own rendering of the error
/// as the cause.
pub(crate) proof fn refusals_end_with_the_rendering(
    source: bincode::error::DecodeError,
    field: &'static str,
    of_base: String,
    of_tail: String,
)
    requires
        call_ensures(
            AgentInfoDecodeError::message,
            (&AgentInfoDecodeError::Base(source),),
            of_base,
        ),
        call_ensures(
            AgentInfoDecodeError::message,
            (&(AgentInfoDecodeError::Tail { field, source }),),
            of_tail,
        ),
    ensures
        exists|rendered: String| #[trigger]
            call_ensures(error_text, (&source,), rendered) && of_base@
                == "cannot decode the agent information: "@ + rendered@,
        exists|rendered: String| #[trigger]
            call_ensures(error_text, (&source,), rendered) && of_tail@ == "cannot decode `"@
                + field@ + "` in the agent information tail: "@ + rendered@,
{
}

/// What a part is refused with is what bincode reported on the bytes of that
/// part.
pub(crate) proof fn refusals_come_from_their_bytes(
    bytes: Seq<u8>,
    source: bincode::error::DecodeError,
)
    ensures
        refuses_base(bytes, source) ==> exists|read: &[u8]|
            read@ == bytes && #[trigger] call_ensures(decode_base, (read,), Err(source)),
        <TextSet as TailField>::refuses(bytes, source) ==> exists|read: &[u8]|
            read@ == bytes && #[trigger] call_ensures(decode_texts, (read,), Err(source)),
        <Option<u64> as TailField>::refuses(bytes, source) ==> exists|read: &[u8]|
            read@ == bytes && #[trigger] call_ensures(decode_epoch, (read,), Err(source)),
        <Option<ManifestFormatRange> as TailField>::refuses(bytes, source) ==> exists|read: &[u8]|
            read@ == bytes && #[trigger] call_ensures(decode_range, (read,), Err(source)),
        <Option<ProvisioningFingerprint> as TailField>::refuses(bytes, source) ==> exists|
            read: &[u8],
        |
            read@ == bytes && #[trigger] call_ensures(decode_fingerprint, (read,), Err(source)),
        <Option<AuditHealth> as TailField>::refuses(bytes, source) ==> exists|read: &[u8]|
            read@ == bytes && #[trigger] call_ensures(decode_audit, (read,), Err(source)),
{
}

} // verus!
