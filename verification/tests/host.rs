use koshi_visual::host::is_local_host;

#[test]
fn a_loopback_reported_host_counts_as_this_machine() {
    // The URI form brackets an IPv6 literal; sloppy shell hooks write it
    // bare. All four spellings mean the local machine; a real remote name
    // does not.
    for local_host in [
        None,
        Some("localhost"),
        Some("LOCALHOST"),
        Some("127.0.0.1"),
        Some("127.0.0.2"),
        Some("[127.0.0.1]"),
        Some("::1"),
        Some("[::1]"),
        Some("0:0:0:0:0:0:0:1"),
    ] {
        assert!(
            is_local_host(local_host),
            "{local_host:?} must count as local"
        );
    }
    assert!(!is_local_host(Some("build-server")));
    assert!(!is_local_host(Some("10.0.0.1")));
}

#[test]
fn every_spelling_of_a_loopback_address_counts() {
    for local_host in [
        "LocalHost",
        "[localhost]",
        "127.255.255.255",
        "127.1.20.249",
        "0::1",
        "::0:1",
        "0:0::0:0001",
        "0000:0000:0000:0000:0000:0000:0000:0001",
        "::0.0.0.1",
        "0:0:0:0:0:0:0.0.0.1",
        "::0:0:0:0:0:0:1",
    ] {
        assert!(is_local_host(Some(local_host)), "{local_host} is local");
    }
}

#[test]
fn what_is_no_loopback_address_does_not_count() {
    for remote_host in [
        "",
        "[]",
        "localhos",
        "localhosts",
        "127.0.0",
        "127.0.0.1.1",
        "127.0.0.256",
        "127.0.0.01",
        "127.0.0.",
        "0127.0.0.1",
        "128.0.0.1",
        "::",
        "::2",
        "1::1",
        "::1:1",
        "::10",
        ":::1",
        ":0::1",
        "0::0::1",
        "::00001",
        "0:0:0:0:0:0:0:0:1",
        "0:0:0:0:0:0:1",
        "0::0:0:0:0:0:0:1",
        "0:0:0:0:0:0:0:0.0.0.1",
        "[::1",
        "::1]",
        "\u{5bbf}",
    ] {
        assert!(!is_local_host(Some(remote_host)), "{remote_host} is not");
    }
}
