//! Finding the label printer among the character devices of the `usbmisc`
//! class. What a scan of the class directory found is handed in as one
//! `SysfsEntry` per entry; the choice of printer is made here.

use vstd::prelude::*;

verus! {

/// One entry of the device class directory, as far as it could be resolved.
/// `vendor_id` and `product_id` are the trimmed contents of the owning USB
/// device's `idVendor` and `idProduct` files, `None` where the `device`
/// link, its resolution or the file could not be read.
#[derive(Debug)]
pub struct SysfsEntry {
    pub name: String,
    pub vendor_id: Option<String>,
    pub product_id: Option<String>,
}

/// A printer found by a scan: its device node and its vendor.
#[derive(Debug)]
pub struct PrinterDevice {
    pub device_path: String,
    pub vendor_id: String,
}

impl View for PrinterDevice {
    type V = (Seq<char>, Seq<char>);

    open spec fn view(&self) -> (Seq<char>, Seq<char>) {
        (self.device_path@, self.vendor_id@)
    }
}

/// The (device node, vendor) pairs of a sequence of printers.
pub open spec fn views_of(ps: Seq<PrinterDevice>) -> Seq<(Seq<char>, Seq<char>)> {
    ps.map_values(|p: PrinterDevice| p@)
}

/// The name of a line printer entry: it starts with `lp`.
pub open spec fn is_printer_name(name: Seq<char>) -> bool {
    name.len() >= 2 && name[0] == 'l' && name[1] == 'p'
}

/// The device node of an entry: `/dev/usb/<name>`.
pub open spec fn device_path_of(name: Seq<char>) -> Seq<char> {
    "/dev/usb/"@ + name
}

/// An entry that names a line printer and has both identity attributes.
pub open spec fn is_usable(e: SysfsEntry) -> bool {
    is_printer_name(e.name@) && e.vendor_id is Some && e.product_id is Some
}

/// A usable entry of vendor `vendor`.
pub open spec fn has_vendor(e: SysfsEntry, vendor: Seq<char>) -> bool {
    is_usable(e) && e.vendor_id->0@ == vendor
}

/// The printers that a scan yields: one (device node, vendor) pair for each
/// usable entry, in the order of the entries.
pub open spec fn printers_of(s: Seq<SysfsEntry>) -> Seq<(Seq<char>, Seq<char>)>
    decreases s.len(),
{
    if s.len() == 0 {
        Seq::empty()
    } else {
        (if is_usable(s[0]) {
            seq![(device_path_of(s[0].name@), s[0].vendor_id->0@)]
        } else {
            Seq::empty()
        }) + printers_of(s.drop_first())
    }
}

/// The device node of the first printer of vendor `vendor`.
pub open spec fn first_with_vendor(ps: Seq<(Seq<char>, Seq<char>)>, vendor: Seq<char>) -> Option<
    Seq<char>,
>
    decreases ps.len(),
{
    if ps.len() == 0 {
        None
    } else if ps[0].1 == vendor {
        Some(ps[0].0)
    } else {
        first_with_vendor(ps.drop_first(), vendor)
    }
}

/// The device node that the locator picks for vendor `vendor`.
pub open spec fn locate(s: Seq<SysfsEntry>, vendor: Seq<char>) -> Option<Seq<char>> {
    first_with_vendor(printers_of(s), vendor)
}

proof fn lemma_printers_of_single(e: SysfsEntry)
    ensures
        printers_of(seq![e]) == (if is_usable(e) {
            seq![(device_path_of(e.name@), e.vendor_id->0@)]
        } else {
            Seq::empty()
        }),
{
    let one = seq![e];
    assert(printers_of(Seq::<SysfsEntry>::empty()) =~= Seq::empty());
    assert(one.drop_first() =~= Seq::<SysfsEntry>::empty());
    assert(one[0] == e);
    if is_usable(e) {
        assert(printers_of(one) =~= seq![(device_path_of(e.name@), e.vendor_id->0@)]);
    } else {
        assert(printers_of(one) =~= Seq::empty());
    }
}

proof fn lemma_printers_of_append(a: Seq<SysfsEntry>, b: Seq<SysfsEntry>)
    ensures
        printers_of(a + b) == printers_of(a) + printers_of(b),
    decreases a.len(),
{
    if a.len() == 0 {
        assert(a + b =~= b);
    } else {
        lemma_printers_of_append(a.drop_first(), b);
        assert((a + b).drop_first() =~= a.drop_first() + b);
        assert((a + b)[0] == a[0]);
        let head: Seq<(Seq<char>, Seq<char>)> = if is_usable(a[0]) {
            seq![(device_path_of(a[0].name@), a[0].vendor_id->0@)]
        } else {
            Seq::empty()
        };
        assert(head + (printers_of(a.drop_first()) + printers_of(b)) =~= (head + printers_of(
            a.drop_first(),
        )) + printers_of(b));
    }
}

/// Whether an entry name is that of a line printer (starts with `lp`).
pub fn is_printer_entry_name(name: &str) -> (r: bool)
    ensures
        r == is_printer_name(name@),
{
    let n = name.unicode_len();
    n >= 2 && name.get_char(0) == 'l' && name.get_char(1) == 'p'
}

/// The device node of an entry: `/dev/usb/<name>`.
pub fn device_path_for(name: &str) -> (r: String)
    ensures
        r@ == device_path_of(name@),
{
    let mut s = String::from_str("/dev/usb/");
    s.append(name);
    s
}

/// The printers among the scanned entries: each entry that names a line
/// printer and has both identity attributes, in the order given.
pub fn detect_printers(entries: &Vec<SysfsEntry>) -> (r: Vec<PrinterDevice>)
    ensures
        views_of(r@) == printers_of(entries@),
{
    let mut r: Vec<PrinterDevice> = Vec::new();
    let mut i: usize = 0;
    while i < entries.len()
        invariant
            i <= entries@.len(),
            views_of(r@) == printers_of(entries@.take(i as int)),
        decreases entries@.len() - i,
    {
        let e = &entries[i];
        proof {
            let one = seq![entries@[i as int]];
            lemma_printers_of_append(entries@.take(i as int), one);
            assert(entries@.take(i as int + 1) =~= entries@.take(i as int) + one);
            lemma_printers_of_single(entries@[i as int]);
        }
        if is_printer_entry_name(e.name.as_str()) {
            match (&e.vendor_id, &e.product_id) {
                (Some(vid), Some(_pid)) => {
                    let p = PrinterDevice {
                        device_path: device_path_for(e.name.as_str()),
                        vendor_id: vid.clone(),
                    };
                    r.push(p);
                },
                _ => {},
            }
        }
        assert(views_of(r@) =~= printers_of(entries@.take(i as int + 1)));
        i = i + 1;
    }
    assert(entries@.take(entries@.len() as int) =~= entries@);
    r
}

/// The device node of the first printer among the scanned entries whose
/// vendor is `vendor`, in the order of the entries; `None` if there is none.
pub fn find_zebra_printer(entries: &Vec<SysfsEntry>, vendor: &str) -> (r: Option<String>)
    ensures
        match r {
            Some(p) => locate(entries@, vendor@) == Some(p@),
            None => locate(entries@, vendor@) is None,
        },
{
    let printers = detect_printers(entries);
    let ghost ps = views_of(printers@);
    let wanted = String::from_str(vendor);
    let mut i: usize = 0;
    assert(ps.skip(0) =~= ps);
    while i < printers.len()
        invariant
            ps == views_of(printers@),
            ps == printers_of(entries@),
            i <= printers@.len(),
            first_with_vendor(ps, vendor@) == first_with_vendor(ps.skip(i as int), vendor@),
            wanted@ == vendor@,
        decreases printers@.len() - i,
    {
        assert(ps.skip(i as int).drop_first() =~= ps.skip(i as int + 1));
        assert(ps.skip(i as int)[0] == printers@[i as int]@);
        if printers[i].vendor_id == wanted {
            return Some(printers[i].device_path.clone());
        }
        i = i + 1;
    }
    None
}

/// With exactly one entry of vendor `vendor`, wherever it stands among the
/// others, the locator picks that entry's device node.
pub proof fn lemma_locate_unique(s: Seq<SysfsEntry>, vendor: Seq<char>, k: int)
    requires
        0 <= k < s.len(),
        has_vendor(s[k], vendor),
        forall|j: int| 0 <= j < s.len() && j != k ==> !has_vendor(#[trigger] s[j], vendor),
    ensures
        locate(s, vendor) == Some(device_path_of(s[k].name@)),
    decreases s.len(),
{
    if k > 0 {
        let t = s.drop_first();
        assert forall|j: int| 0 <= j < t.len() && j != k - 1 implies !has_vendor(
            #[trigger] t[j],
            vendor,
        ) by {
            assert(t[j] == s[j + 1]);
        }
        assert(t[k - 1] == s[k]);
        lemma_locate_unique(t, vendor, k - 1);
        assert(!has_vendor(s[0], vendor));
        if is_usable(s[0]) {
            let ps = printers_of(s);
            assert(ps.drop_first() =~= printers_of(t));
        } else {
            assert(printers_of(s) =~= printers_of(t));
        }
    }
}

/// With no entry of vendor `vendor` the locator finds nothing.
pub proof fn lemma_locate_none(s: Seq<SysfsEntry>, vendor: Seq<char>)
    requires
        forall|j: int| 0 <= j < s.len() ==> !has_vendor(#[trigger] s[j], vendor),
    ensures
        locate(s, vendor) is None,
    decreases s.len(),
{
    if s.len() > 0 {
        let t = s.drop_first();
        assert forall|j: int| 0 <= j < t.len() implies !has_vendor(#[trigger] t[j], vendor) by {
            assert(t[j] == s[j + 1]);
        }
        lemma_locate_none(t, vendor);
        assert(!has_vendor(s[0], vendor));
        if is_usable(s[0]) {
            let ps = printers_of(s);
            assert(ps.drop_first() =~= printers_of(t));
        } else {
            assert(printers_of(s) =~= printers_of(t));
        }
    }
}

/// An entry that could not be resolved (not a line printer, or an identity
/// attribute missing) is passed over: the scan yields the same printers,
/// and so the same choice, with it as without it, wherever it stands.
pub proof fn lemma_unusable_entry_skipped(a: Seq<SysfsEntry>, e: SysfsEntry, b: Seq<SysfsEntry>)
    requires
        !is_usable(e),
    ensures
        printers_of(a + seq![e] + b) == printers_of(a + b),
        forall|v: Seq<char>| #[trigger] locate(a + seq![e] + b, v) == locate(a + b, v),
{
    let one = seq![e];
    lemma_printers_of_append(a + one, b);
    lemma_printers_of_append(a, one);
    lemma_printers_of_append(a, b);
    lemma_printers_of_single(e);
    assert(a + one + b =~= (a + one) + b);
    assert(printers_of(a) + Seq::<(Seq<char>, Seq<char>)>::empty() =~= printers_of(a));
}

} // verus!
