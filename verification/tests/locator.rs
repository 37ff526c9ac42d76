use hid_brightness::locator::{
    find_first_match, DeviceDescriptor, DeviceSelector, PRODUCT_ID_24MD4KL, PRODUCT_ID_27MD5KL,
    VENDOR_ID,
};

fn descriptor(vendor_id: u16, product_id: u16, name: Option<&str>) -> DeviceDescriptor {
    DeviceDescriptor {
        vendor_id,
        product_id,
        product_name: name.map(|s| s.to_owned()),
    }
}

#[test]
fn matches_exact_triple() {
    let sel = DeviceSelector::default_target();
    assert!(sel.matches(&descriptor(
        VENDOR_ID,
        PRODUCT_ID_27MD5KL,
        Some("HID BRIGHTNESS")
    )));
}

#[test]
fn rejects_wrong_vendor_or_product() {
    let sel = DeviceSelector::default_target();
    assert!(!sel.matches(&descriptor(0x46d, PRODUCT_ID_27MD5KL, Some("HID BRIGHTNESS"))));
    assert!(!sel.matches(&descriptor(VENDOR_ID, 0x9a99, Some("HID BRIGHTNESS"))));
}

#[test]
fn rejects_wrong_or_absent_name() {
    let sel = DeviceSelector::default_target();
    assert!(!sel.matches(&descriptor(VENDOR_ID, PRODUCT_ID_27MD5KL, Some("HID KEYBOARD"))));
    assert!(!sel.matches(&descriptor(
        VENDOR_ID,
        PRODUCT_ID_27MD5KL,
        Some("hid brightness")
    )));
    // An absent product name is a non-match, not a wildcard.
    assert!(!sel.matches(&descriptor(VENDOR_ID, PRODUCT_ID_27MD5KL, None)));
}

#[test]
fn sibling_model_is_selectable() {
    let sel = DeviceSelector::for_product(PRODUCT_ID_24MD4KL);
    assert!(sel.matches(&descriptor(
        VENDOR_ID,
        PRODUCT_ID_24MD4KL,
        Some("HID BRIGHTNESS")
    )));
    assert!(!sel.matches(&descriptor(
        VENDOR_ID,
        PRODUCT_ID_27MD5KL,
        Some("HID BRIGHTNESS")
    )));
}

#[test]
fn first_match_takes_oldest_entry() {
    let sel = DeviceSelector::default_target();
    let devices = vec![
        descriptor(0x46d, 0xc52b, Some("USB Receiver")),
        descriptor(VENDOR_ID, PRODUCT_ID_27MD5KL, None),
        descriptor(VENDOR_ID, PRODUCT_ID_27MD5KL, Some("HID BRIGHTNESS")),
        descriptor(VENDOR_ID, PRODUCT_ID_27MD5KL, Some("HID BRIGHTNESS")),
    ];
    assert_eq!(find_first_match(&sel, &devices), Some(2));
}

#[test]
fn no_match_yields_none() {
    let sel = DeviceSelector::default_target();
    let devices = vec![
        descriptor(0x46d, 0xc52b, Some("USB Receiver")),
        descriptor(VENDOR_ID, PRODUCT_ID_24MD4KL, Some("HID BRIGHTNESS")),
    ];
    assert_eq!(find_first_match(&sel, &devices), None);
    assert_eq!(find_first_match(&sel, &Vec::new()), None);
}
