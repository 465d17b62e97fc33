//! Devices on the bus: what the host reports of each, how a report is
//! classified against the catalog, and when a device counts as being in
//! recovery mode.

use vstd::prelude::*;
use vstd::string::*;
use crate::catalog::{
    board_id_of, find_known_product, first_row_with, get_board_id_from_module,
    get_storage_options, get_supported_l4t_versions, lemma_first_row_with, storage_options_of,
    supported_l4t_versions_of, table_rows, KnownProduct, KnownProductView, JETSON_VENDOR_ID,
};
use crate::text::{
    copy_texts, four_hex_digits, push_four_hex_digits, push_three_decimal_digits, texts,
    three_decimal_digits,
};

verus! {

/// The interface class that a vendor defines for itself.
pub const VENDOR_SPECIFIC_CLASS: u8 = 0xFF;

/// The class and subclass codes of one setting of an interface.
#[derive(Clone, Copy, Debug, PartialEq, Eq, Structural)]
pub struct UsbInterfaceSetting {
    pub class_code: u8,
    pub sub_class_code: u8,
}

/// One interface of a configuration, with its settings in the order of the
/// descriptor.
#[derive(Debug, PartialEq, Eq)]
pub struct UsbInterface {
    pub settings: Vec<UsbInterfaceSetting>,
}

/// The active configuration of a device: the number of interfaces that it
/// declares, and the interfaces that the host lists.
#[derive(Debug, PartialEq, Eq)]
pub struct UsbConfiguration {
    pub num_interfaces: u8,
    pub interfaces: Vec<UsbInterface>,
}

/// The vendor and product ids of a device descriptor.
#[derive(Clone, Copy, Debug, PartialEq, Eq, Structural)]
pub struct UsbIdentity {
    pub vendor_id: u16,
    pub product_id: u16,
}

/// What the host reports of one attached device. The identity is absent where
/// the device descriptor could not be read, the configuration where the
/// active configuration could not be inspected.
#[derive(Debug, PartialEq, Eq)]
pub struct UsbObservation {
    pub identity: Option<UsbIdentity>,
    pub bus_number: u8,
    pub device_address: u8,
    pub active_configuration: Option<UsbConfiguration>,
}

/// Where a classified device sits on the bus.
#[derive(Debug, PartialEq, Eq)]
pub struct UsbDeviceInfo {
    pub vendor_id: u16,
    pub product_id: u16,
    pub device_path: String,
    pub bus_number: u8,
    pub device_address: u8,
    pub is_recovery_mode: bool,
}

/// What a `UsbDeviceInfo` says, as plain values.
pub struct UsbDeviceInfoView {
    pub vendor_id: u16,
    pub product_id: u16,
    pub device_path: Seq<char>,
    pub bus_number: u8,
    pub device_address: u8,
    pub is_recovery_mode: bool,
}

impl View for UsbDeviceInfo {
    type V = UsbDeviceInfoView;

    open spec fn view(&self) -> UsbDeviceInfoView {
        UsbDeviceInfoView {
            vendor_id: self.vendor_id,
            product_id: self.product_id,
            device_path: self.device_path@,
            bus_number: self.bus_number,
            device_address: self.device_address,
            is_recovery_mode: self.is_recovery_mode,
        }
    }
}

impl Clone for UsbDeviceInfo {
    fn clone(&self) -> (r: Self)
        ensures
            r@ == self@,
    {
        UsbDeviceInfo {
            vendor_id: self.vendor_id,
            product_id: self.product_id,
            device_path: self.device_path.clone(),
            bus_number: self.bus_number,
            device_address: self.device_address,
            is_recovery_mode: self.is_recovery_mode,
        }
    }
}

/// A device of the supported family, classified against the catalog.
#[derive(Debug, PartialEq, Eq)]
pub struct JetsonDevice {
    pub id: String,
    pub vendor: String,
    pub product: String,
    pub module: String,
    pub board_id: String,
    pub is_connected: bool,
    pub supported_l4t: Vec<String>,
    pub storage_options: Vec<String>,
    pub usb_info: Option<UsbDeviceInfo>,
}

/// What a `JetsonDevice` says, as plain values.
pub struct JetsonDeviceView {
    pub id: Seq<char>,
    pub vendor: Seq<char>,
    pub product: Seq<char>,
    pub module: Seq<char>,
    pub board_id: Seq<char>,
    pub is_connected: bool,
    pub supported_l4t: Seq<Seq<char>>,
    pub storage_options: Seq<Seq<char>>,
    pub usb_info: Option<UsbDeviceInfoView>,
}

/// What bus information that may be absent says, as plain values.
pub open spec fn optional_usb_info(info: Option<UsbDeviceInfo>) -> Option<UsbDeviceInfoView> {
    match info {
        Some(i) => Some(i@),
        None => None,
    }
}

impl View for JetsonDevice {
    type V = JetsonDeviceView;

    open spec fn view(&self) -> JetsonDeviceView {
        JetsonDeviceView {
            id: self.id@,
            vendor: self.vendor@,
            product: self.product@,
            module: self.module@,
            board_id: self.board_id@,
            is_connected: self.is_connected,
            supported_l4t: texts(self.supported_l4t@),
            storage_options: texts(self.storage_options@),
            usb_info: optional_usb_info(self.usb_info),
        }
    }
}

impl Clone for JetsonDevice {
    fn clone(&self) -> (r: Self)
        ensures
            r@ == self@,
    {
        let usb_info = match &self.usb_info {
            Some(info) => Some(info.clone()),
            None => None,
        };
        JetsonDevice {
            id: self.id.clone(),
            vendor: self.vendor.clone(),
            product: self.product.clone(),
            module: self.module.clone(),
            board_id: self.board_id.clone(),
            is_connected: self.is_connected,
            supported_l4t: copy_texts(&self.supported_l4t),
            storage_options: copy_texts(&self.storage_options),
            usb_info,
        }
    }
}

/// What a list of devices says, as plain values.
pub open spec fn device_views(devices: Seq<JetsonDevice>) -> Seq<JetsonDeviceView> {
    devices.map_values(|d: JetsonDevice| d@)
}

/// A device is in recovery mode exactly when its active configuration could
/// be inspected, declares one interface, and the first setting of the first
/// interface listed has the vendor-specific class and subclass zero.
pub open spec fn in_recovery_mode(configuration: Option<UsbConfiguration>) -> bool {
    match configuration {
        Some(c) => c.num_interfaces == 1 && c.interfaces@.len() > 0
            && c.interfaces@[0].settings@.len() > 0 && c.interfaces@[0].settings@[0].class_code
            == VENDOR_SPECIFIC_CLASS && c.interfaces@[0].settings@[0].sub_class_code == 0,
        None => false,
    }
}

/// Tells whether a device with this active configuration is in recovery mode.
pub fn check_recovery_mode(configuration: &Option<UsbConfiguration>) -> (r: bool)
    ensures
        r == in_recovery_mode(*configuration),
{
    match configuration {
        Some(c) => {
            if c.num_interfaces == 1 && c.interfaces.len() > 0 {
                let first = &c.interfaces[0];
                if first.settings.len() > 0 {
                    let setting = first.settings[0];
                    setting.class_code == VENDOR_SPECIFIC_CLASS && setting.sub_class_code == 0
                } else {
                    false
                }
            } else {
                false
            }
        },
        None => false,
    }
}

/// The path of the device node at a bus number and a device address.
pub open spec fn device_path_of(bus_number: u8, device_address: u8) -> Seq<char> {
    "/dev/bus/usb/"@ + three_decimal_digits(bus_number) + "/"@ + three_decimal_digits(
        device_address,
    )
}

/// The id under which a device is listed: its product id in hexadecimal, then
/// the bus number and the device address.
pub open spec fn device_id_of(product_id: u16, bus_number: u8, device_address: u8) -> Seq<char> {
    "jetson-"@ + four_hex_digits(product_id) + "-"@ + three_decimal_digits(bus_number) + "-"@
        + three_decimal_digits(device_address)
}

/// The path of the device node at a bus number and a device address.
pub fn device_path(bus_number: u8, device_address: u8) -> (r: String)
    ensures
        r@ == device_path_of(bus_number, device_address),
{
    let mut out = "/dev/bus/usb/".to_owned();
    push_three_decimal_digits(&mut out, bus_number);
    out.append("/");
    push_three_decimal_digits(&mut out, device_address);
    out
}

/// The id under which a device is listed.
pub fn device_id(product_id: u16, bus_number: u8, device_address: u8) -> (r: String)
    ensures
        r@ == device_id_of(product_id, bus_number, device_address),
{
    let mut out = "jetson-".to_owned();
    push_four_hex_digits(&mut out, product_id);
    out.append("-");
    push_three_decimal_digits(&mut out, bus_number);
    out.append("-");
    push_three_decimal_digits(&mut out, device_address);
    out
}

/// The device that an observation with the identity `identity` stands for,
/// once the catalog row `row` has been found for it.
pub open spec fn device_for(
    row: KnownProductView,
    identity: UsbIdentity,
    observation: UsbObservation,
) -> JetsonDeviceView {
    JetsonDeviceView {
        id: device_id_of(
            identity.product_id,
            observation.bus_number,
            observation.device_address,
        ),
        vendor: "NVIDIA"@,
        product: row.product,
        module: row.module,
        board_id: board_id_of(row.module),
        is_connected: true,
        supported_l4t: supported_l4t_versions_of(row.module),
        storage_options: storage_options_of(row.module),
        usb_info: Some(
            UsbDeviceInfoView {
                vendor_id: identity.vendor_id,
                product_id: identity.product_id,
                device_path: device_path_of(observation.bus_number, observation.device_address),
                bus_number: observation.bus_number,
                device_address: observation.device_address,
                is_recovery_mode: in_recovery_mode(observation.active_configuration),
            },
        ),
    }
}

/// How one observation is classified: a device where its descriptor was read,
/// names the supported vendor, and has a product id of the table, whose first
/// row with that id decides; nothing otherwise.
pub open spec fn classified(rows: Seq<KnownProductView>, observation: UsbObservation) -> Option<
    JetsonDeviceView,
> {
    match observation.identity {
        Some(identity) => if identity.vendor_id == JETSON_VENDOR_ID {
            match first_row_with(rows, identity.product_id) {
                Some(i) => Some(device_for(rows[i], identity, observation)),
                None => None,
            }
        } else {
            None
        },
        None => None,
    }
}

/// The devices that a list of observations gives, in the order of the list.
pub open spec fn detected_devices(
    rows: Seq<KnownProductView>,
    observations: Seq<UsbObservation>,
) -> Seq<JetsonDeviceView>
    decreases observations.len(),
{
    if observations.len() == 0 {
        Seq::empty()
    } else {
        let before = detected_devices(rows, observations.drop_last());
        match classified(rows, observations.last()) {
            Some(d) => before.push(d),
            None => before,
        }
    }
}

/// What a device that may be absent says, as plain values.
pub open spec fn optional_device(device: Option<JetsonDevice>) -> Option<JetsonDeviceView> {
    match device {
        Some(d) => Some(d@),
        None => None,
    }
}

/// Classifies one observation against the table of known products.
pub fn classify_observation(table: &Vec<KnownProduct>, observation: &UsbObservation) -> (r: Option<
    JetsonDevice,
>)
    ensures
        optional_device(r) == classified(table_rows(table@), *observation),
{
    let identity = match observation.identity {
        Some(identity) => identity,
        None => {
            return None;
        },
    };
    if identity.vendor_id != JETSON_VENDOR_ID {
        return None;
    }
    let place = match find_known_product(table, identity.product_id) {
        Some(i) => i,
        None => {
            return None;
        },
    };
    proof {
        lemma_first_row_with(table_rows(table@), identity.product_id);
    }
    let row = &table[place];
    let bus_number = observation.bus_number;
    let device_address = observation.device_address;
    let usb_info = UsbDeviceInfo {
        vendor_id: identity.vendor_id,
        product_id: identity.product_id,
        device_path: device_path(bus_number, device_address),
        bus_number,
        device_address,
        is_recovery_mode: check_recovery_mode(&observation.active_configuration),
    };
    let device = JetsonDevice {
        id: device_id(identity.product_id, bus_number, device_address),
        vendor: "NVIDIA".to_owned(),
        product: row.product.clone(),
        module: row.module.clone(),
        board_id: get_board_id_from_module(row.module.as_str()),
        is_connected: true,
        supported_l4t: get_supported_l4t_versions(row.module.as_str()),
        storage_options: get_storage_options(row.module.as_str()),
        usb_info: Some(usb_info),
    };
    proof {
        assert(table_rows(table@)[place as int] == row@);
    }
    Some(device)
}

/// Classifies every observation of a listing, in order.
pub fn classify_observations(table: &Vec<KnownProduct>, observations: &Vec<UsbObservation>) -> (r:
    Vec<JetsonDevice>)
    ensures
        device_views(r@) == detected_devices(table_rows(table@), observations@),
{
    let ghost rows = table_rows(table@);
    let mut devices: Vec<JetsonDevice> = Vec::new();
    let mut i: usize = 0;
    proof {
        assert(device_views(devices@) =~= detected_devices(rows, observations@.subrange(0, 0)));
    }
    while i < observations.len()
        invariant
            rows == table_rows(table@),
            0 <= i <= observations@.len(),
            device_views(devices@) == detected_devices(rows, observations@.subrange(0, i as int)),
        decreases observations@.len() - i,
    {
        let ghost before = devices@;
        let found = classify_observation(table, &observations[i]);
        proof {
            let upto = observations@.subrange(0, i as int + 1);
            assert(upto.drop_last() =~= observations@.subrange(0, i as int));
            assert(upto.last() == observations@[i as int]);
        }
        match found {
            Some(device) => {
                devices.push(device);
                proof {
                    assert(device_views(devices@) =~= device_views(before).push(device@));
                }
            },
            None => {},
        }
        i = i + 1;
    }
    proof {
        assert(observations@.subrange(0, i as int) =~= observations@);
    }
    devices
}

/// A listing in which no observation is classified gives no device.
pub proof fn lemma_no_match_no_device(
    rows: Seq<KnownProductView>,
    observations: Seq<UsbObservation>,
)
    requires
        forall|i: int|
            0 <= i < observations.len() ==> classified(rows, #[trigger] observations[i]).is_none(),
    ensures
        detected_devices(rows, observations) == Seq::<JetsonDeviceView>::empty(),
    decreases observations.len(),
{
    if observations.len() > 0 {
        let front = observations.drop_last();
        assert forall|i: int| 0 <= i < front.len() implies classified(
            rows,
            #[trigger] front[i],
        ).is_none() by {
            assert(front[i] == observations[i]);
        }
        lemma_no_match_no_device(rows, front);
        assert(classified(rows, observations[observations.len() - 1]).is_none());
    }
}

} // verus!
