use label_printer::discovery::{
    detect_printers, device_path_for, find_zebra_printer, is_printer_entry_name, SysfsEntry,
};

fn entry(name: &str, vendor: Option<&str>, product: Option<&str>) -> SysfsEntry {
    SysfsEntry {
        name: name.to_string(),
        vendor_id: vendor.map(|v| v.to_string()),
        product_id: product.map(|p| p.to_string()),
    }
}

#[test]
fn picks_matching_vendor_in_either_order() {
    let a = entry("lp0", Some("ffff"), Some("0001"));
    let b = entry("lp1", Some("0a5f"), Some("0181"));
    let forward = vec![
        entry("lp0", Some("ffff"), Some("0001")),
        entry("lp1", Some("0a5f"), Some("0181")),
    ];
    let backward = vec![b, a];
    assert_eq!(find_zebra_printer(&forward, "0a5f"), Some("/dev/usb/lp1".to_string()));
    assert_eq!(find_zebra_printer(&backward, "0a5f"), Some("/dev/usb/lp1".to_string()));
}

#[test]
fn no_matching_vendor_gives_none() {
    let entries = vec![
        entry("lp0", Some("ffff"), Some("0001")),
        entry("lp1", Some("1234"), Some("0181")),
    ];
    assert_eq!(find_zebra_printer(&entries, "0a5f"), None);
    assert_eq!(find_zebra_printer(&Vec::new(), "0a5f"), None);
}

#[test]
fn first_of_several_matches_wins() {
    let entries = vec![
        entry("lp3", Some("0a5f"), Some("0001")),
        entry("lp1", Some("0a5f"), Some("0181")),
    ];
    assert_eq!(find_zebra_printer(&entries, "0a5f"), Some("/dev/usb/lp3".to_string()));
}

#[test]
fn unresolvable_entries_are_skipped() {
    let entries = vec![
        entry("lp0", None, None),
        entry("lp1", Some("0a5f"), None),
        entry("lp2", None, Some("0181")),
        entry("lp3", Some("0a5f"), Some("0181")),
    ];
    assert_eq!(find_zebra_printer(&entries, "0a5f"), Some("/dev/usb/lp3".to_string()));
    let found = detect_printers(&entries);
    assert_eq!(found.len(), 1);
    assert_eq!(found[0].device_path, "/dev/usb/lp3");
    assert_eq!(found[0].vendor_id, "0a5f");
}

#[test]
fn entries_not_named_lp_are_ignored() {
    let entries = vec![
        entry("hiddev0", Some("0a5f"), Some("0181")),
        entry("l", Some("0a5f"), Some("0181")),
        entry("lp7", Some("ffff"), Some("0002")),
    ];
    let found = detect_printers(&entries);
    assert_eq!(found.len(), 1);
    assert_eq!(found[0].device_path, "/dev/usb/lp7");
    assert_eq!(find_zebra_printer(&entries, "0a5f"), None);
}

#[test]
fn vendor_filter_is_a_parameter() {
    let entries = vec![
        entry("lp0", Some("ffff"), Some("0001")),
        entry("lp1", Some("0a5f"), Some("0181")),
    ];
    assert_eq!(find_zebra_printer(&entries, "ffff"), Some("/dev/usb/lp0".to_string()));
    assert_eq!(find_zebra_printer(&entries, "0A5F"), None);
}

#[test]
fn entry_names_and_paths() {
    assert!(is_printer_entry_name("lp0"));
    assert!(is_printer_entry_name("lp"));
    assert!(!is_printer_entry_name("l"));
    assert!(!is_printer_entry_name("Lp0"));
    assert!(!is_printer_entry_name("hiddev0"));
    assert_eq!(device_path_for("lp0"), "/dev/usb/lp0");
}
