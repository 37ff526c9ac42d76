//! Choosing the right HID device among everything attached.
//!
//! The HID registry reports many devices; the one brightness endpoint of
//! the target display is the device whose vendor id, product id and exact
//! product-name string all match.  Enumeration and opening are transport
//! work and happen outside the library; it hands the library the plain
//! descriptors, and the library picks the first match — the "oldest"
//! entry — exactly as the registry ordered them.

use vstd::prelude::*;

verus! {

/// Vendor id shared by the supported display models.
pub const VENDOR_ID: u16 = 0x43e;

/// Product id of the 27MD5KL model, the default target.
pub const PRODUCT_ID_27MD5KL: u16 = 0x9a70;

/// Product id of the 24MD4KL sibling model.
pub const PRODUCT_ID_24MD4KL: u16 = 0x9a63;

/// Product id of the 27MD5KA sibling model.
pub const PRODUCT_ID_27MD5KA: u16 = 0x9a40;

/// What the registry reports of one attached HID device, reduced to the
/// plain fields the matching rule reads.
pub struct DeviceDescriptor {
    pub vendor_id: u16,
    pub product_id: u16,
    /// The reported product-name string; `None` when the registry has
    /// none, which never matches.
    pub product_name: Option<String>,
}

/// Which display model to look for: the id pair a candidate must carry.
#[derive(Clone, Copy, Debug, PartialEq, Eq, Structural)]
pub struct DeviceSelector {
    pub vendor_id: u16,
    pub product_id: u16,
}

/// Whether a reported product name is the brightness endpoint's: exactly
/// "HID BRIGHTNESS"; an absent name is a non-match, not a wildcard.
pub open spec fn name_matches(name: Option<String>) -> bool {
    match name {
        Some(s) => s@ == "HID BRIGHTNESS"@,
        None => false,
    }
}

/// Whether a descriptor is the selected display's brightness endpoint:
/// vendor id, product id and product name must all match.
pub open spec fn descriptor_matches(sel: DeviceSelector, d: DeviceDescriptor) -> bool {
    d.vendor_id == sel.vendor_id && d.product_id == sel.product_id && name_matches(
        d.product_name,
    )
}

impl DeviceSelector {
    /// Selector for a given model's product id under the shared vendor id.
    pub fn for_product(product_id: u16) -> (r: DeviceSelector)
        ensures
            r.vendor_id == VENDOR_ID,
            r.product_id == product_id,
    {
        DeviceSelector { vendor_id: VENDOR_ID, product_id }
    }

    /// Selector for the default target model, the 27MD5KL.
    pub fn default_target() -> (r: DeviceSelector)
        ensures
            r.vendor_id == VENDOR_ID,
            r.product_id == PRODUCT_ID_27MD5KL,
    {
        DeviceSelector { vendor_id: VENDOR_ID, product_id: PRODUCT_ID_27MD5KL }
    }

    /// Test one descriptor against the matching rule.
    pub fn matches(&self, d: &DeviceDescriptor) -> (r: bool)
        ensures
            r == descriptor_matches(*self, *d),
    {
        if self.vendor_id != d.vendor_id || self.product_id != d.product_id {
            return false;
        }
        match &d.product_name {
            Some(n) => {
                let target: String = "HID BRIGHTNESS".to_owned();
                *n == target
            },
            None => false,
        }
    }
}

/// Index of the first descriptor that matches the selector, in registry
/// order — the "oldest" candidate — or `None` when nothing attached
/// matches.
pub fn find_first_match(sel: &DeviceSelector, devices: &Vec<DeviceDescriptor>) -> (r: Option<
    usize,
>)
    ensures
        r matches Some(i) ==> i < devices.len() && descriptor_matches(*sel, devices[i as int])
            && (forall|j: int| 0 <= j < i ==> !descriptor_matches(*sel, devices[j])),
        r is None ==> forall|j: int|
            0 <= j < devices.len() ==> !descriptor_matches(*sel, devices[j]),
{
    let mut i: usize = 0;
    while i < devices.len()
        invariant
            i <= devices.len(),
            forall|j: int| 0 <= j < i ==> !descriptor_matches(*sel, devices[j]),
        decreases devices.len() - i,
    {
        if sel.matches(&devices[i]) {
            return Some(i);
        }
        i = i + 1;
    }
    None
}

} // verus!
