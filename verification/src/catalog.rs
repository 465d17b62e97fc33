//! The device catalog: fixed tables from product ids to modules, and from a
//! module's name to its board id, firmware versions and storage media.

use vstd::prelude::*;
use vstd::string::*;
use crate::text::{same_text, texts};

verus! {

/// The vendor id under which the supported devices appear on the bus.
pub const JETSON_VENDOR_ID: u16 = 0x0955;

/// True for the three modules of the Orin family.
pub open spec fn is_orin_module(module: Seq<char>) -> bool {
    module == "AGX Orin"@ || module == "Orin NX"@ || module == "Orin Nano"@
}

/// True for the two modules of the Xavier family.
pub open spec fn is_xavier_module(module: Seq<char>) -> bool {
    module == "AGX Xavier"@ || module == "Xavier NX"@
}

/// The board id of a module; an unknown module has the id of all zeros.
pub open spec fn board_id_of(module: Seq<char>) -> Seq<char> {
    if module == "AGX Orin"@ {
        "3701-0000"@
    } else if module == "Orin NX"@ {
        "3767-0000"@
    } else if module == "Orin Nano"@ {
        "3767-0003"@
    } else if module == "AGX Xavier"@ {
        "2888-0001"@
    } else if module == "Xavier NX"@ {
        "3668-0000"@
    } else if module == "Nano - 4GB"@ {
        "3448-0002"@
    } else {
        "0000-0000"@
    }
}

/// The firmware versions of the Orin family, newest first.
pub open spec fn orin_l4t_versions() -> Seq<Seq<char>> {
    seq![
        "36.4.4"@,
        "36.4.3"@,
        "36.4.0"@,
        "36.3.0"@,
        "36.2.0"@,
        "35.5.0"@,
        "35.4.1"@,
        "35.3.1"@,
        "35.2.1"@,
    ]
}

/// The firmware versions of the Xavier family, newest first.
pub open spec fn xavier_l4t_versions() -> Seq<Seq<char>> {
    seq![
        "35.5.0"@,
        "35.4.1"@,
        "35.3.1"@,
        "35.2.1"@,
        "32.7.5"@,
        "32.7.4"@,
        "32.7.3"@,
        "32.7.2"@,
        "32.7.1"@,
    ]
}

/// The firmware versions of the 4 GB Nano, newest first.
pub open spec fn nano_l4t_versions() -> Seq<Seq<char>> {
    seq!["32.7.5"@, "32.7.4"@, "32.7.3"@, "32.7.2"@, "32.7.1"@]
}

/// The firmware versions that a module supports, newest first; none for an
/// unknown module.
pub open spec fn supported_l4t_versions_of(module: Seq<char>) -> Seq<Seq<char>> {
    if is_orin_module(module) {
        orin_l4t_versions()
    } else if is_xavier_module(module) {
        xavier_l4t_versions()
    } else if module == "Nano - 4GB"@ {
        nano_l4t_versions()
    } else {
        Seq::empty()
    }
}

/// The storage media that a module can be flashed to; a module outside the
/// table gets the SD card alone.
pub open spec fn storage_options_of(module: Seq<char>) -> Seq<Seq<char>> {
    if module == "AGX Orin"@ || module == "Orin NX"@ || is_xavier_module(module) {
        seq!["nvme"@, "sd"@, "emmc"@]
    } else if module == "Orin Nano"@ {
        seq!["nvme"@, "sd"@]
    } else {
        seq!["sd"@]
    }
}

/// True for the six module names that the catalog knows.
pub open spec fn is_known_module(module: Seq<char>) -> bool {
    is_orin_module(module) || is_xavier_module(module) || module == "Nano - 4GB"@
}

/// A module that the catalog does not know has the board id of all zeros, no
/// firmware version, and the SD card as its only storage medium.
pub proof fn lemma_unknown_module(module: Seq<char>)
    requires
        !is_known_module(module),
    ensures
        board_id_of(module) == "0000-0000"@,
        supported_l4t_versions_of(module) == Seq::<Seq<char>>::empty(),
        storage_options_of(module) == seq!["sd"@],
{
}

/// The board id of `module`.
pub fn get_board_id_from_module(module: &str) -> (id: String)
    ensures
        id@ == board_id_of(module@),
{
    if same_text(module, "AGX Orin") {
        "3701-0000".to_owned()
    } else if same_text(module, "Orin NX") {
        "3767-0000".to_owned()
    } else if same_text(module, "Orin Nano") {
        "3767-0003".to_owned()
    } else if same_text(module, "AGX Xavier") {
        "2888-0001".to_owned()
    } else if same_text(module, "Xavier NX") {
        "3668-0000".to_owned()
    } else if same_text(module, "Nano - 4GB") {
        "3448-0002".to_owned()
    } else {
        "0000-0000".to_owned()
    }
}

/// The firmware versions that `module` supports, newest first.
pub fn get_supported_l4t_versions(module: &str) -> (versions: Vec<String>)
    ensures
        texts(versions@) == supported_l4t_versions_of(module@),
{
    let mut v: Vec<String> = Vec::new();
    if same_text(module, "AGX Orin") || same_text(module, "Orin NX") || same_text(
        module,
        "Orin Nano",
    ) {
        v.push("36.4.4".to_owned());
        v.push("36.4.3".to_owned());
        v.push("36.4.0".to_owned());
        v.push("36.3.0".to_owned());
        v.push("36.2.0".to_owned());
        v.push("35.5.0".to_owned());
        v.push("35.4.1".to_owned());
        v.push("35.3.1".to_owned());
        v.push("35.2.1".to_owned());
    } else if same_text(module, "AGX Xavier") || same_text(module, "Xavier NX") {
        v.push("35.5.0".to_owned());
        v.push("35.4.1".to_owned());
        v.push("35.3.1".to_owned());
        v.push("35.2.1".to_owned());
        v.push("32.7.5".to_owned());
        v.push("32.7.4".to_owned());
        v.push("32.7.3".to_owned());
        v.push("32.7.2".to_owned());
        v.push("32.7.1".to_owned());
    } else if same_text(module, "Nano - 4GB") {
        v.push("32.7.5".to_owned());
        v.push("32.7.4".to_owned());
        v.push("32.7.3".to_owned());
        v.push("32.7.2".to_owned());
        v.push("32.7.1".to_owned());
    }
    proof {
        assert(texts(v@) =~= supported_l4t_versions_of(module@));
    }
    v
}

/// The storage media that `module` can be flashed to.
pub fn get_storage_options(module: &str) -> (options: Vec<String>)
    ensures
        texts(options@) == storage_options_of(module@),
{
    let mut v: Vec<String> = Vec::new();
    if same_text(module, "AGX Orin") || same_text(module, "Orin NX") || same_text(
        module,
        "AGX Xavier",
    ) || same_text(module, "Xavier NX") {
        v.push("nvme".to_owned());
        v.push("sd".to_owned());
        v.push("emmc".to_owned());
    } else if same_text(module, "Orin Nano") {
        v.push("nvme".to_owned());
        v.push("sd".to_owned());
    } else {
        v.push("sd".to_owned());
    }
    proof {
        assert(texts(v@) =~= storage_options_of(module@));
    }
    v
}

/// One row of the table of known products.
pub struct KnownProduct {
    pub product_id: u16,
    pub product: String,
    pub module: String,
}

/// What a row of the table of known products says, as plain values.
pub struct KnownProductView {
    pub product_id: u16,
    pub product: Seq<char>,
    pub module: Seq<char>,
}

impl View for KnownProduct {
    type V = KnownProductView;

    open spec fn view(&self) -> KnownProductView {
        KnownProductView { product_id: self.product_id, product: self.product@, module: self.module@ }
    }
}

/// The rows of a table of known products, as plain values.
pub open spec fn table_rows(table: Seq<KnownProduct>) -> Seq<KnownProductView> {
    table.map_values(|row: KnownProduct| row@)
}

/// The table of known products, in the order in which it is searched. Two
/// product ids occur twice; the search takes the first row of each.
pub open spec fn known_products() -> Seq<KnownProductView> {
    seq![
        KnownProductView { product_id: 0x7c18, product: "AGX Orin"@, module: "AGX Orin"@ },
        KnownProductView { product_id: 0x7e19, product: "Orin NX"@, module: "Orin NX"@ },
        KnownProductView { product_id: 0x7f21, product: "Orin Nano"@, module: "Orin Nano"@ },
        KnownProductView { product_id: 0x7019, product: "AGX Xavier"@, module: "AGX Xavier"@ },
        KnownProductView { product_id: 0x7e19, product: "Xavier NX"@, module: "Xavier NX"@ },
        KnownProductView { product_id: 0x7f21, product: "Nano"@, module: "Nano - 4GB"@ },
    ]
}

/// The first place in `rows` whose product id is `product_id`, if any.
pub open spec fn first_row_with(rows: Seq<KnownProductView>, product_id: u16) -> Option<int>
    decreases rows.len(),
{
    if rows.len() == 0 {
        None
    } else if rows[0].product_id == product_id {
        Some(0)
    } else {
        match first_row_with(rows.drop_first(), product_id) {
            Some(i) => Some(i + 1),
            None => None,
        }
    }
}

/// What `first_row_with` finds is the earliest row with that product id, and
/// it finds nothing only where no row has it.
pub proof fn lemma_first_row_with(rows: Seq<KnownProductView>, product_id: u16)
    ensures
        match first_row_with(rows, product_id) {
            Some(i) => 0 <= i < rows.len() && rows[i].product_id == product_id && forall|j: int|
                0 <= j < i ==> (#[trigger] rows[j]).product_id != product_id,
            None => forall|j: int| 0 <= j < rows.len() ==> (#[trigger] rows[j]).product_id != product_id,
        },
    decreases rows.len(),
{
    if rows.len() > 0 && rows[0].product_id != product_id {
        let rest = rows.drop_first();
        lemma_first_row_with(rest, product_id);
        match first_row_with(rest, product_id) {
            Some(i) => {
                assert forall|j: int| 0 <= j < i + 1 implies (#[trigger] rows[j]).product_id
                    != product_id by {
                    if j > 0 {
                        assert(rows[j] == rest[j - 1]);
                    }
                }
            },
            None => {
                assert forall|j: int| 0 <= j < rows.len() implies (#[trigger] rows[j]).product_id
                    != product_id by {
                    if j > 0 {
                        assert(rows[j] == rest[j - 1]);
                    }
                }
            },
        }
    }
}

/// Builds one row of the table.
fn known_product(product_id: u16, product: &str, module: &str) -> (row: KnownProduct)
    ensures
        row@ == (KnownProductView { product_id, product: product@, module: module@ }),
{
    KnownProduct { product_id, product: product.to_owned(), module: module.to_owned() }
}

/// The table of known products.
pub fn jetson_products() -> (table: Vec<KnownProduct>)
    ensures
        table_rows(table@) == known_products(),
{
    let mut table: Vec<KnownProduct> = Vec::new();
    table.push(known_product(0x7c18, "AGX Orin", "AGX Orin"));
    table.push(known_product(0x7e19, "Orin NX", "Orin NX"));
    table.push(known_product(0x7f21, "Orin Nano", "Orin Nano"));
    table.push(known_product(0x7019, "AGX Xavier", "AGX Xavier"));
    table.push(known_product(0x7e19, "Xavier NX", "Xavier NX"));
    table.push(known_product(0x7f21, "Nano", "Nano - 4GB"));
    proof {
        assert(table_rows(table@) =~= known_products());
    }
    table
}

/// Searches `table` from the front for a row with the product id `product_id`.
pub fn find_known_product(table: &Vec<KnownProduct>, product_id: u16) -> (r: Option<usize>)
    ensures
        match r {
            Some(i) => first_row_with(table_rows(table@), product_id) == Some(i as int),
            None => first_row_with(table_rows(table@), product_id).is_none(),
        },
{
    let ghost rows = table_rows(table@);
    let mut i: usize = 0;
    while i < table.len()
        invariant
            rows == table_rows(table@),
            0 <= i <= table@.len(),
            forall|j: int| 0 <= j < i ==> (#[trigger] rows[j]).product_id != product_id,
        decreases table@.len() - i,
    {
        if table[i].product_id == product_id {
            proof {
                lemma_first_row_with(rows, product_id);
                assert(rows[i as int].product_id == product_id);
            }
            return Some(i);
        }
        assert(rows[i as int].product_id != product_id);
        i = i + 1;
    }
    proof {
        lemma_first_row_with(rows, product_id);
    }
    None
}

} // verus!
