use gp_client::profile::{
    hostname, host_id, linux_distro, normalize_uuid, serialno, uuid_from_hex, vmware_serial_from_uuid,
    ClientOs, MachineFacts, Profile,
};

#[test]
fn client_os_parsing_defaults_to_linux() {
    assert_eq!(ClientOs::parse("Windows"), ClientOs::Windows);
    assert_eq!(ClientOs::parse("mac-intel"), ClientOs::Mac);
    assert_eq!(ClientOs::parse("nonsense"), ClientOs::Linux);
}

#[test]
fn reported_os_matches_openconnect_allow_list() {
    assert_eq!(ClientOs::Linux.openconnect_os(), "linux-64");
    assert_eq!(ClientOs::Windows.openconnect_os(), "win");
    assert_eq!(ClientOs::Mac.openconnect_os(), "mac-intel");
}

#[test]
fn client_os_round_trips_through_its_name() {
    for os in [ClientOs::Linux, ClientOs::Windows, ClientOs::Mac] {
        assert_eq!(ClientOs::parse(os.as_str()), os);
    }
}

#[test]
fn vmware_serial_uses_smbios_byte_order() {
    assert_eq!(
        vmware_serial_from_uuid("5a784d56-6461-19ac-9ea9-d36a3b9c6cef").unwrap(),
        "VMware-56 4d 78 5a 61 64 ac 19-9e a9 d3 6a 3b 9c 6c ef"
    );
}

#[test]
fn invalid_uuid_has_no_vmware_serial() {
    assert_eq!(vmware_serial_from_uuid("not-a-uuid"), None);
}

#[test]
fn machine_id_becomes_a_uuid() {
    assert_eq!(
        uuid_from_hex("0123456789abcdef0123456789abcdef").unwrap(),
        "01234567-89ab-cdef-0123-456789abcdef"
    );
}

#[test]
fn user_agent_identifies_as_a_globalprotect_client() {
    let profile = Profile::detect(ClientOs::Windows, &MachineFacts::unknown());
    assert!(profile.user_agent.starts_with("PAN GlobalProtect/6.3.3-650 ("));
    assert_eq!(profile.os_version, "Microsoft Windows 11 Pro , 64-bit");
}

#[test]
fn the_distribution_comes_from_os_release() {
    let release = "NAME=Fedora\nPRETTY_NAME=\"Fedora Linux 40 (Workstation Edition)\"\n";
    assert_eq!(linux_distro(Some(release)).iter().collect::<String>(), "Fedora Linux 40 (Workstation Edition)");
    assert_eq!(linux_distro(None).iter().collect::<String>(), "Ubuntu 24.04.3 LTS");
}

#[test]
fn a_product_uuid_is_normalised_into_the_host_id() {
    let mut facts = MachineFacts::unknown();
    facts.product_uuid = Some(" 5A784D56-6461-19AC-9EA9-D36A3B9C6CEF\n".to_string());
    assert_eq!(host_id(&facts), "5a784d56-6461-19ac-9ea9-d36a3b9c6cef");
    assert_eq!(normalize_uuid("nope"), None);
}

#[test]
fn the_serial_falls_back_to_the_vmware_form_of_the_host_id() {
    let mut facts = MachineFacts::unknown();
    facts.product_serial = Some("None".to_string());
    assert_eq!(
        serialno(&facts, "5a784d56-6461-19ac-9ea9-d36a3b9c6cef"),
        "VMware-56 4d 78 5a 61 64 ac 19-9e a9 d3 6a 3b 9c 6c ef"
    );
    facts.product_serial = Some(" ABC123 ".to_string());
    assert_eq!(serialno(&facts, "x"), "ABC123");
}

#[test]
fn the_host_name_prefers_the_system_call() {
    let mut facts = MachineFacts::unknown();
    facts.etc_hostname = Some("from-file\n".to_string());
    assert_eq!(hostname(&facts).iter().collect::<String>(), "from-file");
    facts.hostname = Some("from-call".to_string());
    assert_eq!(hostname(&facts).iter().collect::<String>(), "from-call");
}

#[test]
fn a_missing_machine_id_derives_a_stable_uuid() {
    let facts = MachineFacts::unknown();
    let first = host_id(&facts);
    assert_eq!(first, host_id(&facts));
    assert_eq!(first.len(), 36);
    assert_eq!(&first[8..9], "-");
}

#[test]
fn client_os_round_trips_through_its_openconnect_name() {
    for os in [ClientOs::Linux, ClientOs::Windows, ClientOs::Mac] {
        assert_eq!(ClientOs::parse(os.openconnect_os()), os);
    }
}

#[test]
fn reporting_another_os_keeps_the_machine_identity() {
    let facts = MachineFacts {
        os_release: Some("PRETTY_NAME=\"Debian GNU/Linux 12\"\n".to_string()),
        hostname: Some("box".to_string()),
        etc_hostname: None,
        product_uuid: None,
        machine_id: Some("0123456789ABCDEF0123456789abcdef\n".to_string()),
        product_serial: None,
    };
    let linux = Profile::detect(ClientOs::Linux, &facts);
    let mac = Profile::detect(ClientOs::Mac, &facts);
    assert_eq!(linux.host_id, mac.host_id);
    assert_eq!(linux.serialno, mac.serialno);
    assert_eq!(linux.computer, mac.computer);
    assert_eq!(linux.host_id, "01234567-89ab-cdef-0123-456789abcdef");
    assert_eq!(mac.client_os, ClientOs::Mac);
    assert_eq!(mac.client_version, "6.3.3-915");
    assert_eq!(linux.client_version, "6.3.3-619");
    assert_eq!(linux.user_agent, "PAN GlobalProtect/6.3.3-619 (Linux Debian GNU/Linux 12)");
    assert_eq!(mac.user_agent, "PAN GlobalProtect/6.3.3-915 (Apple Mac OS X 13.4.0)");
}

#[test]
fn a_machine_that_says_nothing_still_has_a_name_and_a_lower_case_uuid() {
    let profile = Profile::detect(ClientOs::Linux, &MachineFacts::unknown());
    assert_eq!(profile.computer, "localhost");
    let id = profile.host_id;
    assert_eq!(id.len(), 36);
    for (i, c) in id.chars().enumerate() {
        if [8, 13, 18, 23].contains(&i) {
            assert_eq!(c, '-');
        } else {
            assert!(c.is_ascii_digit() || ('a'..='f').contains(&c));
        }
    }
}
