use quark::config::QuarkConfig;
use quark::manifest::{BuildRequest, Manifest};
use quark::quardle::Error;
use quark::unpack::{must_unpack, unpack_scratch_dir};

fn request(offline: bool) -> BuildRequest {
    BuildRequest {
        name: "demo".to_string(),
        image: "https://example/img.tar.gz".to_string(),
        offline,
        kernel_cmdline: None,
    }
}

#[test]
fn manifest_fields() {
    let m = Manifest::from_request(&request(true));
    assert_eq!(m.quardle, "demo");
    assert_eq!(m.kernel, "vmlinux.bin");
    assert_eq!(m.initramfs, "initramfs.img");
    assert_eq!(m.kernel_cmdline, "/proc/cmdline");
    assert_eq!(m.image, "https://example/img.tar.gz");
    assert_eq!(m.kaps, "/opt/kaps");
    assert!(m.offline);
    assert_eq!(m.bundle.as_deref(), Some("bundle"));
}

#[test]
fn manifest_cmdline_override() {
    let mut req = request(false);
    req.kernel_cmdline = Some("console=ttyS0".to_string());
    assert_eq!(Manifest::from_request(&req).kernel_cmdline, "console=ttyS0");
}

#[test]
fn bundle_present_iff_offline() {
    assert!(Manifest::from_request(&request(true)).bundle.is_some());
    assert!(Manifest::from_request(&request(false)).bundle.is_none());
}

#[test]
fn manifest_json_text() {
    let online = Manifest::from_request(&request(false)).to_json().unwrap();
    assert_eq!(
        online,
        "{\"quardle\":\"demo\",\"kernel\":\"vmlinux.bin\",\"initramfs\":\"initramfs.img\",\"kernel_cmdline\":\"/proc/cmdline\",\"image\":\"https://example/img.tar.gz\",\"kaps\":\"/opt/kaps\",\"offline\":false,\"bundle\":null}"
    );
    let offline = Manifest::from_request(&request(true)).to_json().unwrap();
    assert!(offline.ends_with(",\"offline\":true,\"bundle\":\"bundle\"}"));
}

#[test]
fn manifest_json_escapes_strings() {
    let mut req = request(false);
    req.name = "a\"b\\c\nd".to_string();
    let json = Manifest::from_request(&req).to_json().unwrap();
    assert!(json.starts_with("{\"quardle\":\"a\\\"b\\\\c\\nd\","));
}

#[test]
fn manifest_json_escapes_control_characters() {
    let mut req = request(false);
    req.name = "x\u{1}\u{1f}\t\u{8}\u{c}\ré/".to_string();
    let json = Manifest::from_request(&req).to_json().unwrap();
    assert!(json.starts_with("{\"quardle\":\"x\\u0001\\u001f\\t\\b\\f\\ré/\","));
}

#[test]
fn manifest_round_trip_through_json() {
    for offline in [false, true] {
        let m = Manifest::from_request(&request(offline));
        let text = m.to_json().unwrap();
        let v: serde_json::Value = serde_json::from_str(&text).unwrap();
        let c = QuarkConfig {
            quardle: v["quardle"].as_str().unwrap().to_string(),
            kernel: v["kernel"].as_str().unwrap().to_string(),
            initramfs: v["initramfs"].as_str().unwrap().to_string(),
            kernel_cmdline: v["kernel_cmdline"].as_str().unwrap().to_string(),
            image: v["image"].as_str().unwrap().to_string(),
            kaps: v["kaps"].as_str().unwrap().to_string(),
            offline: v["offline"].as_bool().unwrap(),
            bundle: v["bundle"].as_str().map(|s| s.to_string()),
        };
        let back = c.into_manifest().ok().unwrap();
        assert_eq!(back.to_json().unwrap(), text);
        assert_eq!(back.bundle, m.bundle);
    }
}

#[test]
fn config_from_manifest_keeps_fields() {
    let m = Manifest::from_request(&request(true));
    let c = QuarkConfig::from_manifest(&m);
    assert_eq!(c.quardle, "demo");
    assert_eq!(c.bundle.as_deref(), Some("bundle"));
    let back = c.into_manifest().ok().unwrap();
    assert_eq!(back.image, m.image);
}

#[test]
fn inconsistent_config_is_rejected() {
    let mut c = QuarkConfig::from_manifest(&Manifest::from_request(&request(false)));
    c.offline = true;
    assert_eq!(c.into_manifest().err(), Some(Error::Serialization));
    let mut c = QuarkConfig::from_manifest(&Manifest::from_request(&request(true)));
    c.bundle = None;
    assert_eq!(c.into_manifest().err(), Some(Error::Serialization));
}

#[test]
fn unpack_only_once() {
    assert!(must_unpack(false));
    assert!(!must_unpack(true));
    assert_eq!(unpack_scratch_dir("out"), "out.part");
}
