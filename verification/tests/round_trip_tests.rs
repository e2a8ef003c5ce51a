use boxlite::cli::parse_publish_spec;
use boxlite::cli::parse_volume_spec;
use boxlite::cli::ParsedVolumeSpec;
use boxlite::options::PortProtocol;
use boxlite::options::PortSpec;

#[test]
fn test_publish_specs_round_trip() {
    for (input, written) in [
        ("18789:18789", "18789:18789/tcp"),
        ("8080:80/tcp", "8080:80/tcp"),
        ("80", "80/tcp"),
        ("53:53/udp", "53:53/udp"),
        ("  +0080 : 007 / UDP", "80:7/udp"),
        ("65535/TCP", "65535/tcp"),
        ("1:65535", "1:65535/tcp"),
    ] {
        let first = parse_publish_spec(input);
        if input.contains(" / ") {
            assert!(first.is_err());
            continue;
        }
        let first = first.unwrap();
        let text = first.to_spec_string();
        assert_eq!(text, written, "{:?}", input);
        let second = parse_publish_spec(&text).unwrap();
        assert_eq!(second.host_port, first.host_port);
        assert_eq!(second.guest_port, first.guest_port);
        assert_eq!(second.protocol, first.protocol);
        assert_eq!(second.host_ip, first.host_ip);
        assert_eq!(second.to_spec_string(), text);
    }
    let p = PortSpec {
        host_port: Some(1),
        guest_port: 2,
        protocol: PortProtocol::Udp,
        host_ip: None,
    };
    assert_eq!(p.to_spec_string(), "1:2/udp");
}

#[test]
fn test_volume_specs_round_trip() {
    for (input, written) in [
        ("/data:/app/data", "/data:/app/data:rw"),
        ("/data:/app/data:ro", "/data:/app/data:ro"),
        ("/data:/app/data:rw", "/data:/app/data:rw"),
        ("/data:/app/data:nocopy, RO", "/data:/app/data:ro"),
        ("/data", "/data:rw"),
        ("/data:ro", "/data:ro"),
        ("data:RW", "data:rw"),
        ("C", "C:rw"),
        (r"C:\data:/app/data", r"C:\data:/app/data:rw"),
        (r"C:\data:/app/data:ro", r"C:\data:/app/data:ro"),
        (r"D:\host\path:/app", r"D:\host\path:/app:rw"),
        ("C:/data", "C:/data"),
        ("C:x", "C:x"),
        ("C:b:ro", "C:b:ro:rw"),
        ("C::/g", "C::/g:rw"),
        ("C:x:/g:ro:ignored", "C:x:/g:ro"),
        (" rel : /g ", "rel:/g:rw"),
        ("ab:ro:ro", "ab:ro:ro"),
        ("é:/g", "é:/g:rw"),
    ] {
        let first = parse_volume_spec(input).unwrap();
        let text = first.to_spec_string();
        assert_eq!(text, written, "{:?}", input);
        let second = parse_volume_spec(&text).unwrap();
        assert_eq!(second.host_path, first.host_path, "{:?}", input);
        assert_eq!(second.guest_path, first.guest_path, "{:?}", input);
        assert_eq!(second.read_only, first.read_only, "{:?}", input);
        assert_eq!(second.to_spec_string(), text);
    }
    let v = ParsedVolumeSpec {
        host_path: None,
        guest_path: "/cache".to_string(),
        read_only: true,
    };
    assert_eq!(v.to_spec_string(), "/cache:ro");
}
