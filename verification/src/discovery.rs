//! Recognising the adapter's configuration node among the hidraw nodes:
//! by its name, by the vendor and product ids in its uevent text, and by the
//! vendor usage page at the start of its report descriptor.

use vstd::prelude::*;
use crate::hid::{PRODUCT, VENDOR};

verus! {

/// ASCII upper case of a byte; other bytes stay as they are.
pub open spec fn ascii_upper(b: u8) -> u8 {
    if 0x61 <= b && b <= 0x7a {
        (b - 32) as u8
    } else {
        b
    }
}

pub open spec fn fold(b: u8, fold_case: bool) -> u8 {
    if fold_case {
        ascii_upper(b)
    } else {
        b
    }
}

/// `pat` stands in `text` at offset `i` (ignoring ASCII case in `text` where
/// `fold_case`).
pub open spec fn occurs_at(text: Seq<u8>, pat: Seq<u8>, i: int, fold_case: bool) -> bool {
    &&& 0 <= i
    &&& i + pat.len() <= text.len()
    &&& forall|k: int| 0 <= k < pat.len() ==> fold(#[trigger] text[i + k], fold_case) == pat[k]
}

pub open spec fn occurs(text: Seq<u8>, pat: Seq<u8>, fold_case: bool) -> bool {
    exists|i: int| #[trigger] occurs_at(text, pat, i, fold_case)
}

fn ascii_upper_byte(b: u8) -> (r: u8)
    ensures
        r == ascii_upper(b),
{
    if b >= 0x61 && b <= 0x7a {
        b - 32
    } else {
        b
    }
}

fn occurs_in(text: &[u8], pat: &[u8], fold_case: bool) -> (r: bool)
    ensures
        r == occurs(text@, pat@, fold_case),
{
    if pat.len() > text.len() {
        assert forall|i: int| !#[trigger] occurs_at(text@, pat@, i, fold_case) by {}
        return false;
    }
    let last = text.len() - pat.len();
    let mut i: usize = 0;
    loop
        invariant
            i <= last,
            last + pat@.len() == text@.len(),
            forall|j: int| 0 <= j < i ==> !#[trigger] occurs_at(text@, pat@, j, fold_case),
        decreases last - i,
    {
        let mut k: usize = 0;
        let mut all = true;
        while k < pat.len()
            invariant
                k <= pat.len(),
                i + pat.len() <= text.len(),
                all == forall|m: int| 0 <= m < k ==> fold(#[trigger] text@[i + m], fold_case) == pat@[m],
            decreases pat@.len() - k,
        {
            let b = if fold_case {
                ascii_upper_byte(text[i + k])
            } else {
                text[i + k]
            };
            if b != pat[k] {
                all = false;
            }
            k = k + 1;
        }
        if all {
            assert(occurs_at(text@, pat@, i as int, fold_case));
            return true;
        }
        assert(!occurs_at(text@, pat@, i as int, fold_case));
        if i == last {
            assert forall|j: int| !#[trigger] occurs_at(text@, pat@, j, fold_case) by {
                if 0 <= j < i {
                } else if j == i {
                } else {
                }
            }
            return false;
        }
        i = i + 1;
    }
}

/// "5206": the product id as written in a uevent.
pub open spec fn product_text() -> Seq<u8> {
    seq![0x35u8, 0x32, 0x30, 0x36]
}

/// "2DC8": the vendor id as written in a uevent, in upper case.
pub open spec fn vendor_text() -> Seq<u8> {
    seq![0x32u8, 0x44, 0x43, 0x38]
}

/// A uevent text of the adapter: it names the product id 5206 and, in
/// either case, the vendor id 2DC8.
pub open spec fn is_adapter_uevent(text: Seq<u8>) -> bool {
    occurs(text, product_text(), false) && occurs(text, vendor_text(), true)
}

/// Whether the uevent text (its bytes) belongs to the adapter.
pub fn uevent_names_adapter(text: &[u8]) -> (r: bool)
    ensures
        r == is_adapter_uevent(text@),
{
    let product: Vec<u8> = vec![0x35, 0x32, 0x30, 0x36];
    let vendor: Vec<u8> = vec![0x32, 0x44, 0x43, 0x38];
    assert(product@ =~= product_text());
    assert(vendor@ =~= vendor_text());
    occurs_in(text, product.as_slice(), false) && occurs_in(text, vendor.as_slice(), true)
}

/// A report descriptor that opens with Usage Page 0xFF00 (`06 00 FF`), the
/// vendor page of the configuration interface.
pub open spec fn is_vendor_descriptor(desc: Seq<u8>) -> bool {
    desc.len() >= 3 && desc[0] == 0x06 && desc[1] == 0x00 && desc[2] == 0xff
}

pub fn is_vendor_config_descriptor(desc: &[u8]) -> (r: bool)
    ensures
        r == is_vendor_descriptor(desc@),
{
    desc.len() >= 3 && desc[0] == 0x06 && desc[1] == 0x00 && desc[2] == 0xff
}

/// "hidraw".
pub open spec fn hidraw_prefix() -> Seq<u8> {
    seq![0x68u8, 0x69, 0x64, 0x72, 0x61, 0x77]
}

/// Whether a device node name (its bytes) starts with "hidraw".
pub fn is_hidraw_name(name: &[u8]) -> (r: bool)
    ensures
        r == (name@.len() >= 6 && name@.take(6) == hidraw_prefix()),
{
    let prefix: Vec<u8> = vec![0x68, 0x69, 0x64, 0x72, 0x61, 0x77];
    assert(prefix@ =~= hidraw_prefix());
    if name.len() < 6 {
        return false;
    }
    let mut k: usize = 0;
    while k < 6
        invariant
            k <= 6,
            name@.len() >= 6,
            prefix@ == hidraw_prefix(),
            forall|m: int| 0 <= m < k ==> name@[m] == hidraw_prefix()[m],
        decreases 6 - k,
    {
        if name[k] != prefix[k] {
            assert(name@.take(6)[k as int] != hidraw_prefix()[k as int]);
            return false;
        }
        k = k + 1;
    }
    assert(name@.take(6) =~= hidraw_prefix());
    true
}

// -------------------------------------------------------------------- laws

/// The ASCII digit or upper-case letter of a hex digit.
pub open spec fn upper_hex_digit(d: int) -> u8 {
    if d < 10 {
        (0x30 + d) as u8
    } else {
        (0x41 + d - 10) as u8
    }
}

/// The four upper-case hex digits of a 16-bit id.
pub open spec fn hex4(id: u16) -> Seq<u8> {
    seq![
        upper_hex_digit(id as int / 4096),
        upper_hex_digit((id as int / 256) % 16),
        upper_hex_digit((id as int / 16) % 16),
        upper_hex_digit(id as int % 16)
    ]
}

/// The texts looked for in a uevent are the adapter's product and vendor
/// ids in hex.
pub proof fn lemma_uevent_texts_are_the_ids()
    ensures
        product_text() == hex4(PRODUCT),
        vendor_text() == hex4(VENDOR),
{
    assert(product_text() =~= hex4(PRODUCT));
    assert(vendor_text() =~= hex4(VENDOR));
}

/// The vendor id matches in either case: a uevent text that holds the
/// product id and the vendor id written in lower case is the adapter's.
pub proof fn lemma_vendor_id_any_case(text: Seq<u8>, i: int, j: int)
    requires
        occurs_at(text, product_text(), i, false),
        0 <= j,
        j + 4 <= text.len(),
        text[j] == 0x32,
        text[j + 1] == 0x64,
        text[j + 2] == 0x63,
        text[j + 3] == 0x38,
    ensures
        is_adapter_uevent(text),
{
    assert(occurs_at(text, vendor_text(), j, true));
}

} // verus!
