//! The bulk image transfer: an encoded image is cut into fixed-size output
//! reports ("pages"), each with a header that says where the bytes go.

use vstd::prelude::*;

use crate::error::ProtocolError;

verus! {

/// Length in bytes of every image page.
pub const IMAGE_REPORT_LEN: usize = 1024;

/// Header length of a page bound for a key.
pub const KEY_HEADER_LEN: usize = 8;

/// Header length of a page bound for a region of the LCD strip.
pub const LCD_HEADER_LEN: usize = 16;

/// Pages are numbered with 16 bits, so one transfer holds at most this many.
pub const MAX_PAGES: usize = 65536;

/// First header byte of every image page.
pub const IMAGE_REPORT_MARKER: u8 = 0x02;

/// Second header byte of a key image page.
pub const KEY_IMAGE_OPCODE: u8 = 0x07;

/// Second header byte of an LCD image page.
pub const LCD_IMAGE_OPCODE: u8 = 0x0c;

/// Where the pages of one transfer go.
#[derive(Clone, Copy, Debug, PartialEq, Eq, Structural)]
pub enum PageTarget {
    /// The icon of one key.
    Key(u8),
    /// A rectangle of the LCD strip, at `(x, y)` and of the image's size.
    LcdRegion { x: u16, y: u16, width: u16, height: u16 },
}

pub open spec fn header_len(t: PageTarget) -> nat {
    match t {
        PageTarget::Key(_) => KEY_HEADER_LEN as nat,
        PageTarget::LcdRegion { .. } => LCD_HEADER_LEN as nat,
    }
}

/// Payload bytes that one page carries.
pub open spec fn budget(t: PageTarget) -> nat {
    (IMAGE_REPORT_LEN - header_len(t)) as nat
}

/// The number of pages for a payload of `len` bytes: one per started
/// `budget` bytes, and a single empty page for an empty payload.
pub open spec fn page_count(len: nat, budget: nat) -> nat {
    if len == 0 {
        1
    } else {
        ((len + budget - 1) as int / budget as int) as nat
    }
}

pub open spec fn min(a: int, b: int) -> int {
    if a <= b {
        a
    } else {
        b
    }
}

/// The payload bytes of page `p`.
pub open spec fn chunk(data: Seq<u8>, budget: nat, p: nat) -> Seq<u8> {
    data.subrange(
        min(data.len() as int, (p * budget) as int),
        min(data.len() as int, ((p + 1) * budget) as int),
    )
}

/// Page `p` is the final one: the payload ends within it.
pub open spec fn is_final(len: nat, budget: nat, p: nat) -> bool {
    len <= (p + 1) * budget
}

/// A 16-bit value, least significant byte first.
pub open spec fn le16(v: nat) -> Seq<u8> {
    seq![(v % 256) as u8, ((v / 256) % 256) as u8]
}

pub open spec fn flag_byte(b: bool) -> u8 {
    if b {
        1
    } else {
        0
    }
}

/// The header of a page that carries `len` payload bytes as page `p`.
pub open spec fn header(t: PageTarget, len: nat, p: nat, last: bool) -> Seq<u8> {
    match t {
        PageTarget::Key(key) => seq![IMAGE_REPORT_MARKER, KEY_IMAGE_OPCODE, key, flag_byte(last)]
            + le16(len) + le16(p),
        PageTarget::LcdRegion { x, y, width, height } => seq![
            IMAGE_REPORT_MARKER,
            LCD_IMAGE_OPCODE,
        ] + le16(x as nat) + le16(y as nat) + le16(width as nat) + le16(height as nat) + seq![
            flag_byte(last),
        ] + le16(p) + le16(len) + seq![0u8],
    }
}

/// Page `p` of a transfer of `data`: header, payload, then zeros up to the
/// fixed report length.
pub open spec fn page(t: PageTarget, data: Seq<u8>, p: nat) -> Seq<u8> {
    let c = chunk(data, budget(t), p);
    let h = header(t, c.len(), p, is_final(data.len(), budget(t), p));
    h + c + Seq::new((IMAGE_REPORT_LEN - h.len() - c.len()) as nat, |_i: int| 0u8)
}

/// Every page of a transfer of `data`, in order.
pub open spec fn paged(t: PageTarget, data: Seq<u8>) -> Seq<Seq<u8>> {
    Seq::new(page_count(data.len(), budget(t)), |p: int| page(t, data, p as nat))
}

/// The bytes of each page of a list of pages.
pub open spec fn pages_view(pages: Seq<Vec<u8>>) -> Seq<Seq<u8>> {
    Seq::new(pages.len(), |p: int| pages[p]@)
}

/// Whether a payload of `len` bytes can be sent to `target` in one
/// transfer, that is in at most `MAX_PAGES` pages.
pub fn fits_in_one_transfer(target: &PageTarget, len: usize) -> (r: bool)
    ensures
        r == (page_count(len as nat, budget(*target)) <= MAX_PAGES),
{
    let b = payload_budget(target);
    proof {
        let n = page_count(len as nat, b as nat);
        if len > 0 {
            lemma_page_count_bounds(len as nat, b as nat);
            assert(n <= MAX_PAGES <==> len <= MAX_PAGES * b) by (nonlinear_arith)
                requires
                    b > 0,
                    (n - 1) * b < len <= n * b,
            ;
        }
    }
    len <= MAX_PAGES * b
}

fn push_le16(buf: &mut Vec<u8>, v: usize)
    requires
        v < 65536,
    ensures
        final(buf)@ == old(buf)@ + le16(v as nat),
{
    buf.push((v % 256) as u8);
    buf.push((v / 256) as u8);
}

fn header_bytes(t: &PageTarget, len: usize, p: usize, last: bool) -> (h: Vec<u8>)
    requires
        len < 65536,
        p < 65536,
    ensures
        h@ == header(*t, len as nat, p as nat, last),
        h@.len() == header_len(*t),
{
    let mut h: Vec<u8> = Vec::new();
    let flag: u8 = if last {
        1
    } else {
        0
    };
    match t {
        PageTarget::Key(key) => {
            h.push(IMAGE_REPORT_MARKER);
            h.push(KEY_IMAGE_OPCODE);
            h.push(*key);
            h.push(flag);
            push_le16(&mut h, len);
            push_le16(&mut h, p);
        },
        PageTarget::LcdRegion { x, y, width, height } => {
            h.push(IMAGE_REPORT_MARKER);
            h.push(LCD_IMAGE_OPCODE);
            push_le16(&mut h, *x as usize);
            push_le16(&mut h, *y as usize);
            push_le16(&mut h, *width as usize);
            push_le16(&mut h, *height as usize);
            h.push(flag);
            push_le16(&mut h, p);
            push_le16(&mut h, len);
            h.push(0);
        },
    }
    h
}

fn payload_budget(t: &PageTarget) -> (b: usize)
    ensures
        b == budget(*t),
{
    match t {
        PageTarget::Key(_) => IMAGE_REPORT_LEN - KEY_HEADER_LEN,
        PageTarget::LcdRegion { .. } => IMAGE_REPORT_LEN - LCD_HEADER_LEN,
    }
}

/// The 16-bit value stored least significant byte first at `at`.
pub open spec fn read_le16(b: Seq<u8>, at: int) -> nat {
    (b[at] + 256 * b[at + 1]) as nat
}

/// Where a page header keeps its "last page" flag.
pub open spec fn last_flag_at(t: PageTarget) -> int {
    match t {
        PageTarget::Key(_) => 3,
        PageTarget::LcdRegion { .. } => 10,
    }
}

/// Where a page header keeps its page index.
pub open spec fn page_index_at(t: PageTarget) -> int {
    match t {
        PageTarget::Key(_) => 6,
        PageTarget::LcdRegion { .. } => 11,
    }
}

/// Where a page header keeps its payload length.
pub open spec fn payload_len_at(t: PageTarget) -> int {
    match t {
        PageTarget::Key(_) => 4,
        PageTarget::LcdRegion { .. } => 13,
    }
}

/// The payloads of the first `k` pages, one after the other.
pub open spec fn joined_chunks(data: Seq<u8>, budget: nat, k: nat) -> Seq<u8>
    decreases k,
{
    if k == 0 {
        seq![]
    } else {
        joined_chunks(data, budget, (k - 1) as nat) + chunk(data, budget, (k - 1) as nat)
    }
}

proof fn lemma_le16_roundtrip(v: nat)
    requires
        v < 65536,
    ensures
        read_le16(le16(v), 0) == v,
{
    assert(((v / 256) % 256) == v / 256);
}

proof fn lemma_joined_chunks(data: Seq<u8>, b: nat, k: nat)
    requires
        b > 0,
    ensures
        joined_chunks(data, b, k) == data.subrange(0, min(data.len() as int, (k * b) as int)),
    decreases k,
{
    if k > 0 {
        lemma_joined_chunks(data, b, (k - 1) as nat);
        assert(((k - 1) as nat * b) as int <= (k * b) as int) by (nonlinear_arith)
            requires
                k > 0,
        ;
        assert(k * b == (k - 1) as nat * b + b) by (nonlinear_arith)
            requires
                k > 0,
        ;
        assert(joined_chunks(data, b, k) =~= data.subrange(0, min(data.len() as int, (k * b) as int)));
    } else {
        assert(k * b == 0) by (nonlinear_arith)
            requires
                k == 0,
        ;
        assert(joined_chunks(data, b, k) =~= data.subrange(0, 0));
    }
}

proof fn lemma_page_count_bounds(len: nat, b: nat)
    requires
        b > 0,
        len > 0,
    ensures
        (page_count(len, b) - 1) * b < len <= page_count(len, b) * b,
        page_count(len, b) >= 1,
{
    let n = page_count(len, b);
    assert(n == (len + b - 1) as int / b as int);
    assert((n - 1) * b < len <= n * b && n >= 1) by (nonlinear_arith)
        requires
            b > 0,
            len > 0,
            n == (len + b - 1) as int / b as int,
    ;
}

/// The paging of a transfer: a payload of `P` bytes with a per-page budget
/// of `B` bytes makes `ceil(P / B)` pages, a single page when `P` is zero.
/// Only the final page has its "last" flag set, page `p` carries index `p`
/// (so the indices count up from zero), every page but the final one
/// carries exactly `B` payload bytes, and the payloads put together give
/// back the payload.
pub proof fn lemma_paging(t: PageTarget, data: Seq<u8>)
    requires
        page_count(data.len(), budget(t)) <= MAX_PAGES,
    ensures
        ({
            let len = data.len();
            let b = budget(t);
            let n = page_count(len, b);
            &&& len == 0 ==> n == 1
            &&& len > 0 ==> (n - 1) * b < len <= n * b
            &&& forall|p: nat| p < n ==> (#[trigger] page(t, data, p)).len() == IMAGE_REPORT_LEN
            &&& forall|p: nat| p < n ==> (#[trigger] page(t, data, p))[last_flag_at(t)]
                == flag_byte(p == n - 1)
            &&& forall|p: nat| p < n ==> read_le16(#[trigger] page(t, data, p), page_index_at(t)) == p
            &&& forall|p: nat|
                p < n ==> read_le16(#[trigger] page(t, data, p), payload_len_at(t)) == chunk(
                    data,
                    b,
                    p,
                ).len()
            &&& forall|p: nat| p + 1 < n ==> (#[trigger] chunk(data, b, p)).len() == b
            &&& joined_chunks(data, b, n) == data
        }),
{
    let len = data.len();
    let b = budget(t);
    let n = page_count(len, b);
    if len > 0 {
        lemma_page_count_bounds(len, b);
    }
    assert forall|p: nat| p < n implies #[trigger] chunk(data, b, p).len() <= b && (p + 1 < n ==> chunk(
        data,
        b,
        p,
    ).len() == b) && (is_final(len, b, p) <==> p == n - 1) by {
        assert(p * b + b == (p + 1) * b) by (nonlinear_arith);
        if p + 1 < n {
            assert((p + 1) * b <= (n - 1) * b) by (nonlinear_arith)
                requires
                    p + 1 <= n - 1,
            ;
        }
        if len > 0 && p == n - 1 {
            assert((p + 1) * b == n * b);
        }
    }
    assert forall|p: nat| p < n implies {
        let pg = #[trigger] page(t, data, p);
        &&& pg.len() == IMAGE_REPORT_LEN
        &&& pg[last_flag_at(t)] == flag_byte(p == n - 1)
        &&& read_le16(pg, page_index_at(t)) == p
        &&& read_le16(pg, payload_len_at(t)) == chunk(data, b, p).len()
    } by {
        let c = chunk(data, b, p);
        let h = header(t, c.len(), p, is_final(len, b, p));
        let pg = page(t, data, p);
        lemma_le16_roundtrip(p);
        lemma_le16_roundtrip(c.len());
        assert(h.len() == header_len(t));
        assert(pg[last_flag_at(t)] == h[last_flag_at(t)]);
        assert(pg[page_index_at(t)] == h[page_index_at(t)]);
        assert(pg[page_index_at(t) + 1] == h[page_index_at(t) + 1]);
        assert(pg[payload_len_at(t)] == h[payload_len_at(t)]);
        assert(pg[payload_len_at(t) + 1] == h[payload_len_at(t) + 1]);
    }
    lemma_joined_chunks(data, b, n);
    if len == 0 {
        assert(data.subrange(0, 0) =~= data);
    } else {
        assert(data.subrange(0, len as int) =~= data);
    }
}

proof fn lemma_page_count_step(len: nat, b: nat, k: nat)
    requires
        b > 0,
        k * b < len <= (k + 1) * b || (k == 0 && len == 0),
    ensures
        page_count(len, b) == k + 1,
{
    if len > 0 {
        assert((len + b - 1) as int / b as int == k + 1) by (nonlinear_arith)
            requires
                b > 0,
                k * b < len <= (k + 1) * b,
        ;
    }
}

/// Cuts `data` into pages for `target`. Every page is `IMAGE_REPORT_LEN`
/// bytes; page `p` carries the payload bytes from `p * budget` on, and only
/// the last page may carry fewer than `budget`. An empty payload still
/// makes one page, marked last, of length zero.
pub fn paginate(target: &PageTarget, data: &Vec<u8>) -> (pages: Vec<Vec<u8>>)
    requires
        page_count(data@.len(), budget(*target)) <= MAX_PAGES,
    ensures
        pages@.len() == page_count(data@.len(), budget(*target)),
        forall|p: int| 0 <= p < pages@.len() ==> #[trigger] pages@[p]@ == page(*target, data@, p as nat),
        pages_view(pages@) == paged(*target, data@),
{
    let b = payload_budget(target);
    let len = data.len();
    let mut pages: Vec<Vec<u8>> = Vec::new();
    let mut page_index: usize = 0;
    let mut offset: usize = 0;
    let mut done = false;
    while !done
        invariant
            b == budget(*target),
            len == data@.len(),
            page_count(len as nat, b as nat) <= MAX_PAGES,
            pages@.len() == page_index,
            forall|q: int| 0 <= q < page_index ==> #[trigger] pages@[q]@ == page(*target, data@, q as nat),
            !done ==> offset == page_index * b && offset <= len && (page_index == 0 || offset < len),
            done ==> page_index == page_count(len as nat, b as nat),
        decreases (if done { 0 } else { len - offset + 1 }),
    {
        let remaining = len - offset;
        let this_len = if remaining < b {
            remaining
        } else {
            b
        };
        let last = this_len == remaining;
        proof {
            assert((page_index + 1) * b == offset + b) by (nonlinear_arith)
                requires
                    offset == page_index * b,
            ;
            if last {
                lemma_page_count_step(len as nat, b as nat, page_index as nat);
            } else {
                assert(page_count(len as nat, b as nat) > page_index + 1) by (nonlinear_arith)
                    requires
                        b > 0,
                        len > (page_index + 1) * b,
                        page_count(len as nat, b as nat) == ((len + b - 1) / b as int) as nat,
                ;
            }
        }
        let ghost c = chunk(data@, b as nat, page_index as nat);
        assert(c == data@.subrange(offset as int, offset + this_len));
        assert(is_final(len as nat, b as nat, page_index as nat) == last);
        let mut buf = header_bytes(target, this_len, page_index, last);
        let ghost h = buf@;
        let mut j: usize = 0;
        while j < this_len
            invariant
                offset + this_len <= len,
                len == data@.len(),
                j <= this_len,
                buf@ == h + data@.subrange(offset as int, offset + j),
            decreases this_len - j,
        {
            buf.push(data[offset + j]);
            j = j + 1;
            assert(buf@ =~= h + data@.subrange(offset as int, offset + j));
        }
        let ghost filled = buf@;
        assert(filled.len() <= IMAGE_REPORT_LEN);
        while buf.len() < IMAGE_REPORT_LEN
            invariant
                filled.len() <= buf@.len() <= IMAGE_REPORT_LEN,
                buf@ == filled + Seq::new((buf@.len() - filled.len()) as nat, |_i: int| 0u8),
            decreases IMAGE_REPORT_LEN - buf@.len(),
        {
            buf.push(0);
            assert(buf@ =~= filled + Seq::new((buf@.len() - filled.len()) as nat, |_i: int| 0u8));
        }
        assert(buf@ =~= page(*target, data@, page_index as nat));
        pages.push(buf);
        if last {
            done = true;
        } else {
            offset = offset + this_len;
        }
        page_index = page_index + 1;
    }
    assert(pages_view(pages@) =~= paged(*target, data@));
    pages
}

/// Sends the pages of one transfer in order: the owner of the device
/// writes the page it is handed and reports whether the write succeeded.
/// The first failure ends the transfer with the number of pages written
/// before it; there is no retry.
pub struct PageWriter {
    pages: Vec<Vec<u8>>,
    sent: usize,
}

impl PageWriter {
    pub closed spec fn spec_pages(&self) -> Seq<Vec<u8>> {
        self.pages@
    }

    /// How many pages have been written.
    pub closed spec fn spec_sent(&self) -> nat {
        self.sent as nat
    }

    pub fn new(pages: Vec<Vec<u8>>) -> (w: Self)
        ensures
            w.spec_pages() == pages@,
            w.spec_sent() == 0,
    {
        PageWriter { pages, sent: 0 }
    }

    pub fn sent(&self) -> (r: usize)
        ensures
            r == self.spec_sent(),
    {
        self.sent
    }

    /// The page to write next, or `None` when every page is written.
    pub fn next_page(&self) -> (r: Option<&Vec<u8>>)
        ensures
            r is Some <==> self.spec_sent() < self.spec_pages().len(),
            r matches Some(p) ==> *p == self.spec_pages()[self.spec_sent() as int],
    {
        if self.sent < self.pages.len() {
            Some(&self.pages[self.sent])
        } else {
            None
        }
    }

    /// Records the outcome of writing the page that `next_page` handed out:
    /// `Ok(true)` once the last page is written, `Ok(false)` while pages
    /// remain, and `PartialWrite` with the count of pages written when the
    /// write failed.
    pub fn record(&mut self, written: bool) -> (r: Result<bool, ProtocolError>)
        requires
            old(self).spec_sent() < old(self).spec_pages().len(),
        ensures
            final(self).spec_pages() == old(self).spec_pages(),
            written ==> final(self).spec_sent() == old(self).spec_sent() + 1 && r == Ok::<
                bool,
                ProtocolError,
            >(final(self).spec_sent() == final(self).spec_pages().len()),
            !written ==> final(self).spec_sent() == old(self).spec_sent() && r == Err::<
                bool,
                ProtocolError,
            >(ProtocolError::PartialWrite(old(self).spec_sent() as usize)),
    {
        let total = self.pages.len();
        if written {
            self.sent = self.sent + 1;
            Ok(self.sent == total)
        } else {
            Err(ProtocolError::PartialWrite(self.sent))
        }
    }
}

} // verus!
