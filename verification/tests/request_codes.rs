use review_protocol::client::RequestCode;

#[test]
fn request_code_serde() {
    assert_eq!(7u32, u32::from(RequestCode::ResourceUsage));
    assert_eq!(RequestCode::ResourceUsage, RequestCode::from_primitive(7));
    assert_eq!(22u32, u32::from(RequestCode::DeleteCustomerData));
    assert_eq!(
        RequestCode::DeleteCustomerData,
        RequestCode::from_primitive(22)
    );
}

/// Every node feature-family request code maps to a stable number and back.
#[test]
fn node_request_code_mapping() {
    let cases: &[(RequestCode, u32)] = &[
        (RequestCode::NodeService, 100),
        (RequestCode::NodeNetworkInterface, 101),
        (RequestCode::NodeHostname, 102),
        (RequestCode::NodeTimeSync, 103),
        (RequestCode::NodeLogging, 104),
        (RequestCode::NodeRemoteAccess, 105),
        (RequestCode::NodePower, 106),
        (RequestCode::NodeObservation, 107),
        (RequestCode::NodeVersion, 108),
        (RequestCode::NodePackage, 109),
    ];
    for &(code, num) in cases {
        assert_eq!(u32::from(code), num);
        assert_eq!(RequestCode::from_primitive(num), code);
    }
}

/// The node codes do not collide with the flat codes, and a number that is
/// not assigned maps to `Unknown`.
#[test]
fn node_request_codes_no_collision() {
    assert_eq!(RequestCode::from_primitive(50), RequestCode::Unknown);
    assert_eq!(RequestCode::from_primitive(99), RequestCode::Unknown);
    assert_eq!(
        RequestCode::from_primitive(109),
        RequestCode::NodePackage,
        "109 is now assigned to the node.package family"
    );
    // The first value past the assigned node codes.
    assert_eq!(RequestCode::from_primitive(110), RequestCode::Unknown);
}

/// Every number maps to a code that maps back to it, or to `Unknown`.
#[test]
fn codes_read_back() {
    let mut assigned = 0;
    for number in 0..1000 {
        let code = RequestCode::from_primitive(number);
        if code != RequestCode::Unknown {
            assert_eq!(u32::from(code), number);
            assert!(number <= 22 || (100..=109).contains(&number));
            assigned += 1;
        }
    }
    assert_eq!(assigned, 31);
    assert_eq!(u32::from(RequestCode::Unknown), u32::MAX);
    assert_eq!(RequestCode::from_primitive(u32::MAX), RequestCode::Unknown);
}

#[test]
fn numbers_render_in_decimal() {
    assert_eq!(review_protocol::text::decimal_string(0), "0");
    assert_eq!(review_protocol::text::decimal_string(907), "907");
    assert_eq!(
        review_protocol::text::decimal_string(u64::MAX),
        "18446744073709551615"
    );
}
