use review_protocol::agent_info::{
    decode_agent_info, decode_agent_info_base, decode_tail_field, encode_agent_info, AgentInfo,
    AgentInfoDecodeError,
};
use review_protocol::collections::{TextMap, TextSet};
use review_protocol::types::{
    capability, AuditHealth, ManifestFormatRange, ProvisioningFingerprint, SocketAddr, Status,
};

const AGENT_NAME: &str = "test-agent";
const AGENT_VERSION: &str = "1.0.0";
const PROTOCOL_VERSION: &str = "0.19.0";
const TRUST_EPOCH: u64 = 42;

fn config() -> bincode::config::Configuration {
    bincode::config::standard()
}

fn addr() -> SocketAddr {
    SocketAddr::V4([127, 0, 0, 1], 8080)
}

fn text_set(tags: &[&str]) -> TextSet {
    let mut set = TextSet::new();
    for tag in tags {
        set.insert(tag.to_string());
    }
    set
}

/// Agent information that advertises nothing: every tail field is at its
/// unknown reading.
fn without_tail() -> AgentInfo {
    AgentInfo {
        agent_name: AGENT_NAME.to_string(),
        agent_version: AGENT_VERSION.to_string(),
        protocol_version: PROTOCOL_VERSION.to_string(),
        addr: addr(),
        status: Status::Ready,
        capabilities: TextSet::new(),
        active_trust_epoch: None,
        manifest_formats: None,
        provisioning_fingerprint: None,
        audit_health: None,
    }
}

fn capabilities() -> TextSet {
    text_set(&[capability::REGISTRAR, capability::NODE_PACKAGE])
}

fn manifest_formats() -> ManifestFormatRange {
    ManifestFormatRange { min: 1, max: 2 }
}

fn provisioning_fingerprint() -> ProvisioningFingerprint {
    let mut components = TextMap::new();
    components.insert("roxyd".to_string(), "sha256:abc".to_string());
    ProvisioningFingerprint {
        components,
        domain: "example.test".to_string(),
    }
}

fn audit_health() -> AuditHealth {
    AuditHealth {
        below_low_water: true,
        intent_without_outcome: 3,
    }
}

/// Agent information that advertises every tail field.
fn with_full_tail() -> AgentInfo {
    AgentInfo {
        capabilities: capabilities(),
        active_trust_epoch: Some(TRUST_EPOCH),
        manifest_formats: Some(manifest_formats()),
        provisioning_fingerprint: Some(provisioning_fingerprint()),
        audit_health: Some(audit_health()),
        ..without_tail()
    }
}

fn encode_text(text: &str) -> Vec<u8> {
    bincode::serde::encode_to_vec(text, config()).unwrap()
}

/// The bytes that an agent which knows only the base fields would send.
fn base_bytes() -> Vec<u8> {
    let mut buf = encode_text(AGENT_NAME);
    buf.extend_from_slice(&encode_text(AGENT_VERSION));
    buf.extend_from_slice(&encode_text(PROTOCOL_VERSION));
    // An IPv4 address, its octets, and the port 8080 in three bytes.
    buf.extend_from_slice(&[0, 127, 0, 0, 1, 251, 0x90, 0x1f]);
    // The status `Ready`.
    buf.push(0);
    buf
}

fn encode_capabilities(tags: &TextSet) -> Vec<u8> {
    let tags: std::collections::BTreeSet<String> = tags.items().iter().cloned().collect();
    bincode::serde::encode_to_vec(tags, config()).unwrap()
}

fn encode_formats(formats: Option<ManifestFormatRange>) -> Vec<u8> {
    bincode::serde::encode_to_vec(formats.map(|f| (f.min, f.max)), config()).unwrap()
}

fn encode_fingerprint(fingerprint: Option<ProvisioningFingerprint>) -> Vec<u8> {
    let value = fingerprint.map(|f| {
        let components: std::collections::BTreeMap<String, String> =
            f.components.entries().iter().cloned().collect();
        (components, f.domain)
    });
    bincode::serde::encode_to_vec(value, config()).unwrap()
}

fn encode_audit(audit: Option<AuditHealth>) -> Vec<u8> {
    let value = audit.map(|a| (a.below_low_water, a.intent_without_outcome));
    bincode::serde::encode_to_vec(value, config()).unwrap()
}

/// The bytes of each tail field, in wire order.
fn tail_bytes() -> [Vec<u8>; 5] {
    [
        encode_capabilities(&capabilities()),
        bincode::serde::encode_to_vec(Some(TRUST_EPOCH), config()).unwrap(),
        encode_formats(Some(manifest_formats())),
        encode_fingerprint(Some(provisioning_fingerprint())),
        encode_audit(Some(audit_health())),
    ]
}

/// A payload with the base fields and the first `fields` tail fields.
fn payload_with_tail_prefix(fields: usize) -> Vec<u8> {
    let mut buf = base_bytes();
    for field in tail_bytes().iter().take(fields) {
        buf.extend_from_slice(field);
    }
    buf
}

/// The layout is the base followed by the tail fields in declaration order,
/// which is what lets a decoder stop at any field boundary.
#[test]
fn agent_info_encodes_base_then_tail() {
    assert_eq!(
        encode_agent_info(&with_full_tail()),
        payload_with_tail_prefix(5)
    );
}

/// A payload with no tail decodes, with every tail field at its unknown
/// reading.
#[test]
fn decodes_payload_without_tail() {
    let agent_info = decode_agent_info(&base_bytes()).unwrap();

    assert_eq!(agent_info.agent_name, AGENT_NAME);
    assert_eq!(agent_info.agent_version, AGENT_VERSION);
    assert_eq!(agent_info.protocol_version, PROTOCOL_VERSION);
    assert_eq!(agent_info.addr, addr());
    assert!(agent_info.capabilities.is_empty());
    assert_eq!(agent_info.active_trust_epoch, None);
    assert_eq!(agent_info.manifest_formats, None);
    assert_eq!(agent_info.provisioning_fingerprint, None);
    assert_eq!(agent_info.audit_health, None);
}

#[test]
fn decodes_payload_with_full_tail() {
    let agent_info = decode_agent_info(&encode_agent_info(&with_full_tail())).unwrap();

    assert_eq!(agent_info, with_full_tail());
}

/// A decoder that knows only the base fields reads them and ignores the
/// trailing bytes.
#[test]
fn base_only_decoder_ignores_the_tail() {
    let payload = encode_agent_info(&with_full_tail());

    let (base, consumed) = decode_agent_info_base(&payload).unwrap();

    assert_eq!(base.agent_name, AGENT_NAME);
    assert_eq!(base.agent_version, AGENT_VERSION);
    assert_eq!(base.protocol_version, PROTOCOL_VERSION);
    assert_eq!(base.addr, addr());
    assert_eq!(base.status, Status::Ready);
    assert_eq!(consumed, base_bytes().len());
    assert!(consumed < payload.len());
}

/// A decoder that knows only `capabilities` reads the correct set from a
/// payload that also carries later fields, because each field consumes exactly
/// its own bytes.
#[test]
fn capabilities_only_decoder_ignores_later_fields() {
    let payload = payload_with_tail_prefix(2);
    let mut offset = base_bytes().len();

    let decoded: Option<TextSet> =
        decode_tail_field(&payload, &mut offset, "capabilities").unwrap();

    assert_eq!(decoded, Some(capabilities()));
    assert!(
        offset < payload.len(),
        "the later tail field must be left untouched"
    );
}

#[test]
fn decodes_every_tail_prefix() {
    for fields in 0..=5 {
        let agent_info = decode_agent_info(&payload_with_tail_prefix(fields)).unwrap();

        assert_eq!(
            agent_info.capabilities,
            if fields >= 1 {
                capabilities()
            } else {
                TextSet::new()
            },
            "tail prefix of {fields} field(s)"
        );
        assert_eq!(
            agent_info.active_trust_epoch,
            (fields >= 2).then_some(TRUST_EPOCH),
            "tail prefix of {fields} field(s)"
        );
        assert_eq!(
            agent_info.manifest_formats,
            (fields >= 3).then_some(manifest_formats()),
            "tail prefix of {fields} field(s)"
        );
        assert_eq!(
            agent_info.provisioning_fingerprint,
            (fields >= 4).then_some(provisioning_fingerprint()),
            "tail prefix of {fields} field(s)"
        );
        assert_eq!(
            agent_info.audit_health,
            (fields >= 5).then_some(audit_health()),
            "tail prefix of {fields} field(s)"
        );
    }
}

/// A tail field that the peer sent as absent is skipped, not read as the end
/// of the tail: the fields after it still decode.
#[test]
fn absent_tail_field_does_not_end_the_tail() {
    let agent_info = AgentInfo {
        capabilities: capabilities(),
        active_trust_epoch: None,
        manifest_formats: Some(manifest_formats()),
        provisioning_fingerprint: None,
        audit_health: Some(audit_health()),
        ..without_tail()
    };

    let mut payload = base_bytes();
    payload.extend_from_slice(&encode_capabilities(&agent_info.capabilities));
    payload.extend_from_slice(
        &bincode::serde::encode_to_vec(Option::<u64>::None, config()).unwrap(),
    );
    payload.extend_from_slice(&encode_formats(agent_info.manifest_formats));
    payload.extend_from_slice(&encode_fingerprint(None));
    payload.extend_from_slice(&encode_audit(agent_info.audit_health));

    assert_eq!(encode_agent_info(&agent_info), payload);
    assert_eq!(decode_agent_info(&payload).unwrap(), agent_info);
}

/// A peer that appends a field this decoder does not know about is decoded to
/// the fields it does know, and the unknown bytes are left alone.
#[test]
fn ignores_a_future_tail_field() {
    let mut payload = payload_with_tail_prefix(5);
    payload.extend_from_slice(
        &bincode::serde::encode_to_vec(Some("a field from the future"), config()).unwrap(),
    );

    let agent_info = decode_agent_info(&payload).unwrap();

    assert_eq!(agent_info, with_full_tail());
}

/// A tail that is present but does not decode fails the decode; it is never
/// read as an absent tail.
#[test]
fn truncated_tail_fails() {
    // A two-element set whose second element is missing.
    let mut payload = base_bytes();
    payload.extend_from_slice(&[0x02, 0x01, b'a']);

    let err = decode_agent_info(&payload).unwrap_err();
    assert!(
        matches!(err, AgentInfoDecodeError::Tail { field, .. } if field == "capabilities"),
        "unexpected error: {err:?}"
    );

    // A `Some(u64)` whose value is missing, after a complete `capabilities`
    // field.
    let mut payload = payload_with_tail_prefix(1);
    payload.push(0x01);

    let err = decode_agent_info(&payload).unwrap_err();
    assert!(
        matches!(
            err,
            AgentInfoDecodeError::Tail { field, .. } if field == "active_trust_epoch"
        ),
        "unexpected error: {err:?}"
    );

    // The same payloads without the corrupt bytes decode, so the failure is
    // the corruption and not the absence of a tail.
    assert!(decode_agent_info(&base_bytes()).is_ok());
    assert!(decode_agent_info(&payload_with_tail_prefix(1)).is_ok());
}

#[test]
fn truncated_base_fails() {
    let payload = base_bytes();
    let err = decode_agent_info(&payload[..payload.len() - 1]).unwrap_err();

    assert!(
        matches!(err, AgentInfoDecodeError::Base(_)),
        "unexpected error: {err:?}"
    );
}

/// An unknown tag survives a round trip untouched, and the ordering of the set
/// is stable.
#[test]
fn preserves_unknown_capability_tags() {
    let tags = [
        "future:thing",
        capability::ROLLBACK_SUPERVISOR,
        capability::COLOCATED_REVIEW,
    ];
    let agent_info = AgentInfo {
        capabilities: text_set(&tags),
        ..without_tail()
    };

    let decoded = decode_agent_info(&encode_agent_info(&agent_info)).unwrap();

    assert_eq!(decoded.capabilities, agent_info.capabilities);
    assert!(decoded.capabilities.contains("future:thing"));
    assert_eq!(
        *decoded.capabilities.items(),
        vec!["colocated:review", "future:thing", "rollback-supervisor"]
    );
}

/// An agent without a tail has exactly the bytes of the base and of five
/// absent readings.
#[test]
fn empty_tail_is_five_bytes() {
    let mut expected = base_bytes();
    expected.extend_from_slice(&[0, 0, 0, 0, 0]);
    assert_eq!(encode_agent_info(&without_tail()), expected);
}

#[test]
fn ipv6_address_reads_back() {
    let mut octets = [0u8; 16];
    octets[15] = 1;
    let agent_info = AgentInfo {
        addr: SocketAddr::V6(octets, 443),
        status: Status::Idle,
        ..without_tail()
    };
    let bytes = encode_agent_info(&agent_info);
    assert_eq!(decode_agent_info(&bytes).unwrap(), agent_info);
}

#[test]
fn unknown_status_fails_the_base() {
    let mut payload = base_bytes();
    let last = payload.len() - 1;
    payload[last] = 7;
    let err = decode_agent_info(&payload).unwrap_err();
    assert!(matches!(err, AgentInfoDecodeError::Base(_)));
}

/// Each of the later tail fields is named when its bytes are corrupt.
#[test]
fn corrupt_tail_field_is_named() {
    let names = [
        "capabilities",
        "active_trust_epoch",
        "manifest_formats",
        "provisioning_fingerprint",
        "audit_health",
    ];
    for fields in 1..5 {
        let mut payload = payload_with_tail_prefix(fields);
        // Neither the tag of an absent nor that of a present value.
        payload.push(0x07);
        let err = decode_agent_info(&payload).unwrap_err();
        assert!(
            matches!(err, AgentInfoDecodeError::Tail { field, .. } if field == names[fields]),
            "unexpected error: {err:?}"
        );
    }
}

/// A length that no frame can hold is an error, not an allocation.
#[test]
fn oversized_length_is_an_error() {
    let mut payload = vec![253];
    payload.extend_from_slice(&u64::MAX.to_le_bytes());
    assert!(matches!(
        decode_agent_info(&payload),
        Err(AgentInfoDecodeError::Base(_))
    ));
}

#[test]
fn absent_field_leaves_the_offset() {
    let payload = base_bytes();
    let mut offset = payload.len();
    let epoch: Option<Option<u64>> =
        decode_tail_field(&payload, &mut offset, "active_trust_epoch").unwrap();
    assert_eq!(epoch, None);
    assert_eq!(offset, payload.len());
}

#[test]
fn text_set_is_ordered_without_duplicates() {
    let set = text_set(&["b", "a", "ab", "b", ""]);
    assert_eq!(*set.items(), vec!["", "a", "ab", "b"]);
    assert_eq!(set.len(), 4);
    assert!(set.contains("ab"));
    assert!(!set.contains("c"));
    assert_eq!(set.clone(), set);
}

#[test]
fn text_map_is_ordered_and_replaces() {
    let mut map = TextMap::new();
    map.insert("k2".to_string(), "old".to_string());
    map.insert("k1".to_string(), "one".to_string());
    map.insert("k2".to_string(), "two".to_string());
    assert_eq!(
        *map.entries(),
        vec![
            ("k1".to_string(), "one".to_string()),
            ("k2".to_string(), "two".to_string())
        ]
    );
    assert_eq!(map.clone(), map);
}

/// A frame cut at any byte decodes only at a field boundary. Anywhere else it
/// is refused in the name of the part that is cut.
#[test]
fn every_cut_is_a_boundary_or_an_error() {
    let names = [
        "capabilities",
        "active_trust_epoch",
        "manifest_formats",
        "provisioning_fingerprint",
        "audit_health",
    ];
    let frame = encode_agent_info(&with_full_tail());
    let ends: Vec<usize> = (0..=5).map(|fields| payload_with_tail_prefix(fields).len()).collect();
    for n in 0..=frame.len() {
        let decoded = decode_agent_info(&frame[..n]);
        if n < ends[0] {
            assert!(matches!(decoded, Err(AgentInfoDecodeError::Base(_))));
        } else if let Some(fields) = ends.iter().position(|end| *end == n) {
            let info = decoded.unwrap();
            assert_eq!(info.capabilities.is_empty(), fields < 1);
            assert_eq!(info.active_trust_epoch.is_some(), fields >= 2);
            assert_eq!(info.manifest_formats.is_some(), fields >= 3);
            assert_eq!(info.provisioning_fingerprint.is_some(), fields >= 4);
            assert_eq!(info.audit_health.is_some(), fields >= 5);
        } else {
            let cut = ends.iter().filter(|end| **end < n).count() - 1;
            match decoded {
                Err(AgentInfoDecodeError::Tail { field, .. }) => assert_eq!(field, names[cut]),
                other => panic!("unexpected result at {n}: {other:?}"),
            }
        }
    }
}

/// The bytes behind the base and an empty capability set.
fn tail_after_capabilities(info: &AgentInfo) -> Vec<u8> {
    encode_agent_info(info)[base_bytes().len() + 1..].to_vec()
}

/// A number takes one byte up to 250, and is otherwise led by a byte that
/// tells its width.
#[test]
fn numbers_have_exact_bytes() {
    let cases: [(u64, Vec<u8>); 7] = [
        (0, vec![0]),
        (250, vec![250]),
        (251, vec![251, 251, 0]),
        (65_535, vec![251, 255, 255]),
        (65_536, vec![252, 0, 0, 1, 0]),
        (4_294_967_295, vec![252, 255, 255, 255, 255]),
        (4_294_967_296, vec![253, 0, 0, 0, 0, 1, 0, 0, 0]),
    ];
    for (n, bytes) in cases {
        let info = AgentInfo {
            active_trust_epoch: Some(n),
            audit_health: Some(AuditHealth {
                below_low_water: true,
                intent_without_outcome: n,
            }),
            ..without_tail()
        };
        let mut expected = vec![1];
        expected.extend_from_slice(&bytes);
        expected.extend_from_slice(&[0, 0, 1, 1]);
        expected.extend_from_slice(&bytes);
        assert_eq!(tail_after_capabilities(&info), expected);
    }
    let info = AgentInfo {
        manifest_formats: Some(ManifestFormatRange { min: 300, max: 70_000 }),
        ..without_tail()
    };
    assert_eq!(
        tail_after_capabilities(&info),
        vec![0, 1, 251, 44, 1, 252, 112, 17, 1, 0, 0, 0]
    );
}

#[test]
fn decode_errors_name_the_part_and_the_cause() {
    let err = decode_agent_info(&[]).unwrap_err();
    let text = err.message();
    match err {
        AgentInfoDecodeError::Base(source) => assert_eq!(
            text,
            format!("cannot decode the agent information: {source}")
        ),
        other => panic!("unexpected error: {other:?}"),
    }

    let mut payload = payload_with_tail_prefix(1);
    payload.push(0x01);
    let err = decode_agent_info(&payload).unwrap_err();
    assert_eq!(
        err.message_with("cause"),
        "cannot decode `active_trust_epoch` in the agent information tail: cause"
    );
    let text = err.message();
    match err {
        AgentInfoDecodeError::Tail { source, .. } => assert_eq!(
            text,
            format!(
                "cannot decode `active_trust_epoch` in the agent information tail: {source}"
            )
        ),
        other => panic!("unexpected error: {other:?}"),
    }
}

/// Texts stand in UTF-8 behind their length in bytes, a map as its entries,
/// and an IPv6 address as its sixteen octets.
#[test]
fn texts_have_exact_bytes() {
    let mut components = TextMap::new();
    components.insert("k".to_string(), "v".to_string());
    let info = AgentInfo {
        agent_name: "é€".to_string(),
        agent_version: String::new(),
        protocol_version: "1".to_string(),
        addr: SocketAddr::V6([9; 16], 250),
        status: Status::Idle,
        capabilities: text_set(&["b", "a"]),
        provisioning_fingerprint: Some(ProvisioningFingerprint {
            components,
            domain: "d".to_string(),
        }),
        ..without_tail()
    };
    let mut expected = vec![5, 0xc3, 0xa9, 0xe2, 0x82, 0xac, 0, 1, b'1', 1];
    expected.extend_from_slice(&[9; 16]);
    expected.extend_from_slice(&[250, 1]);
    expected.extend_from_slice(&[2, 1, b'a', 1, b'b']);
    expected.extend_from_slice(&[0, 0]);
    expected.extend_from_slice(&[1, 1, 1, b'k', 1, b'v', 1, b'd']);
    expected.push(0);
    assert_eq!(encode_agent_info(&info), expected);
}

/// Decodes a tail that holds `bytes` behind an empty capability set.
fn decode_behind_capabilities(bytes: &[u8]) -> Result<AgentInfo, AgentInfoDecodeError> {
    let mut payload = base_bytes();
    payload.push(0);
    payload.extend_from_slice(bytes);
    decode_agent_info(&payload)
}

/// A number may stand in more bytes than it needs.
#[test]
fn wide_numbers_are_read() {
    let cases: [(&[u8], u64); 5] = [
        (&[1, 7], 7),
        (&[1, 251, 7, 0], 7),
        (&[1, 252, 7, 0, 0, 0], 7),
        (&[1, 253, 7, 0, 0, 0, 0, 0, 0, 0], 7),
        (&[1, 253, 255, 255, 255, 255, 255, 255, 255, 255], u64::MAX),
    ];
    for (bytes, epoch) in cases {
        let info = decode_behind_capabilities(bytes).unwrap();
        assert_eq!(info.active_trust_epoch, Some(epoch));
    }
    let info = decode_behind_capabilities(&[0, 1, 252, 1, 0, 0, 0, 251, 2, 0]).unwrap();
    assert_eq!(
        info.manifest_formats,
        Some(ManifestFormatRange { min: 1, max: 2 })
    );
}

/// A number in more bytes than its type has, and a byte that stands for no
/// option, no flag or no width, are refused.
#[test]
fn malformed_fields_are_refused() {
    let cases: [(&[u8], &str); 7] = [
        (&[2], "active_trust_epoch"),
        (
            &[1, 254, 7, 0, 0, 0, 0, 0, 0, 0, 0, 0, 0, 0, 0, 0, 0, 0],
            "active_trust_epoch",
        ),
        (&[1, 255, 0, 0, 0, 0, 0, 0, 0, 0], "active_trust_epoch"),
        (
            &[0, 1, 253, 1, 0, 0, 0, 0, 0, 0, 0, 2],
            "manifest_formats",
        ),
        (&[0, 2], "manifest_formats"),
        (&[0, 0, 0, 1, 2, 0], "audit_health"),
        (&[0, 0, 0, 3], "audit_health"),
    ];
    for (bytes, name) in cases {
        match decode_behind_capabilities(bytes) {
            Err(AgentInfoDecodeError::Tail { field, .. }) => assert_eq!(field, name),
            other => panic!("unexpected result: {other:?}"),
        }
    }
}

/// The error of a part is that of its own decode, on its own bytes.
#[test]
fn decode_errors_carry_their_own_cause() {
    let type_error = |bytes: &[u8]| {
        bincode::serde::borrow_decode_from_slice::<Option<u64>, _>(bytes, config())
            .unwrap_err()
            .to_string()
    };
    for bytes in [&[2][..], &[1, 255, 0], &[1]] {
        let err = decode_behind_capabilities(bytes).unwrap_err();
        let text = err.message();
        assert_eq!(text, err.message_with(&type_error(bytes)));
    }
    assert_ne!(type_error(&[2]), type_error(&[1]));

    let base = decode_agent_info_base(&[]).unwrap_err();
    let cause = bincode::serde::borrow_decode_from_slice::<&str, _>(&[], config())
        .unwrap_err()
        .to_string();
    assert_eq!(base.message(), base.message_with(&cause));
}
