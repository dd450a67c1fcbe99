//! Vendor HID protocol of the Retro R8 adapter (usage page 0xFF00): the
//! request packets, the report framing and the parsing of replies.

use vstd::prelude::*;

verus! {

pub const VENDOR: u16 = 0x2dc8;

pub const PRODUCT: u16 = 0x5206;

/// Firmware button index of the rear side button.
pub const BTN_INDEX_SIDE: u8 = 3;

/// Firmware button index of the front side button.
pub const BTN_INDEX_EXTRA: u8 = 4;

/// Length of one report on the configuration interface.
pub const REPORT_LEN: usize = 64;

/// `std::io::Error`, carried through by the library and never inspected.
#[verifier::external_type_specification]
#[verifier::external_body]
pub struct ExIoError(std::io::Error);

#[derive(Debug)]
pub enum HidError {
    /// No configuration hidraw node of the adapter was found.
    NotFound,
    /// Opening, writing or reading the node failed.
    Io(std::io::Error),
    /// No reply of the expected shape came back.
    BadReply,
}

#[derive(Debug, Clone)]
pub struct DpiState {
    pub index: usize,
    pub current_dpi: u16,
    pub stages: Vec<u16>,
}

impl DpiState {
    /// At least one stage, and the active index names one of them.
    pub open spec fn wf(&self) -> bool {
        &&& self.stages@.len() >= 1
        &&& self.index < self.stages@.len()
    }
}

/// Battery state from the mouse (vendor HID, same channel as DPI).
#[derive(Debug, Clone, Copy, PartialEq, Eq, Structural)]
pub struct BatteryState {
    /// 0 to 100.
    pub percent: u8,
    pub charging: bool,
    /// False if the mouse replies but has no real value yet (empty payload).
    pub known: bool,
}

/// A little-endian 16-bit value from its two bytes.
pub open spec fn le16(lo: u8, hi: u8) -> int {
    lo as int + 256 * (hi as int)
}

/// Low byte of a 16-bit value.
pub open spec fn lo_byte(v: u16) -> u8 {
    (v % 256) as u8
}

/// High byte of a 16-bit value.
pub open spec fn hi_byte(v: u16) -> u8 {
    (v / 256) as u8
}

fn u16_from_le(lo: u8, hi: u8) -> (v: u16)
    ensures
        v == le16(lo, hi),
{
    lo as u16 + (hi as u16) * 256
}

pub open spec fn spec_default_dpi_stages() -> Seq<u16> {
    seq![800u16, 1200, 1600, 2400, 3200, 6400]
}

/// The DPI stages that the adapter ships with.
pub fn default_dpi_stages() -> (v: Vec<u16>)
    ensures
        v@ == spec_default_dpi_stages(),
{
    let v: Vec<u16> = vec![800, 1200, 1600, 2400, 3200, 6400];
    assert(v@ =~= spec_default_dpi_stages());
    v
}

/// English name and hex value of the LED colour of each DPI stage.
pub open spec fn spec_stage_color(index: int) -> Option<(Seq<char>, Seq<char>)> {
    if index == 0 {
        Some(("Yellow"@, "#e6c200"@))
    } else if index == 1 {
        Some(("Green"@, "#3cb043"@))
    } else if index == 2 {
        Some(("Orange"@, "#e67e22"@))
    } else if index == 3 {
        Some(("Pink"@, "#e91e8c"@))
    } else if index == 4 {
        Some(("Blue"@, "#3498db"@))
    } else if index == 5 {
        Some(("Purple"@, "#9b59b6"@))
    } else {
        None
    }
}

/// English name and hex value of the LED colour of DPI stage `index`; none
/// past the sixth stage.
pub fn stage_color(index: usize) -> (r: Option<(&'static str, &'static str)>)
    ensures
        r is Some <==> spec_stage_color(index as int) is Some,
        r matches Some(p) ==> spec_stage_color(index as int) == Some((p.0@, p.1@)),
{
    if index == 0 {
        Some(("Yellow", "#e6c200"))
    } else if index == 1 {
        Some(("Green", "#3cb043"))
    } else if index == 2 {
        Some(("Orange", "#e67e22"))
    } else if index == 3 {
        Some(("Pink", "#e91e8c"))
    } else if index == 4 {
        Some(("Blue", "#3498db"))
    } else if index == 5 {
        Some(("Purple", "#9b59b6"))
    } else {
        None
    }
}

/// Hex value of the LED colour of DPI stage `index`; none past the sixth.
pub fn stage_color_hex(index: usize) -> (r: Option<&'static str>)
    ensures
        r is Some <==> spec_stage_color(index as int) is Some,
        r matches Some(h) ==> spec_stage_color(index as int).unwrap().1 == h@,
{
    match stage_color(index) {
        Some(p) => Some(p.1),
        None => None,
    }
}

// ---------------------------------------------------------------- requests

pub open spec fn spec_dpi_request() -> Seq<u8> {
    seq![0x01u8, 0x06, 0x12, 0x01]
}

pub open spec fn spec_button_map_request(btn_index: u8) -> Seq<u8> {
    seq![0x01u8, 0x06, 0x10, 0x01, 0x00, btn_index]
}

pub open spec fn spec_button_map_write(btn_index: u8, value: u16) -> Seq<u8> {
    seq![
        0x01u8,
        0x06,
        0x10,
        0x04,
        0x00,
        btn_index,
        lo_byte(value),
        hi_byte(value),
        0,
        0,
        0
    ]
}

pub open spec fn spec_battery_request() -> Seq<u8> {
    seq![0x01u8, 0x06, 0x1a, 0x01]
}

/// Request for the DPI stage table (`ReadDpiIndex`).
pub fn dpi_request() -> (p: Vec<u8>)
    ensures
        p@ == spec_dpi_request(),
{
    let p: Vec<u8> = vec![0x01, 0x06, 0x12, 0x01];
    assert(p@ =~= spec_dpi_request());
    p
}

/// Request for the firmware map of one button.
pub fn button_map_request(btn_index: u8) -> (p: Vec<u8>)
    ensures
        p@ == spec_button_map_request(btn_index),
{
    let p: Vec<u8> = vec![0x01, 0x06, 0x10, 0x01, 0x00, btn_index];
    assert(p@ =~= spec_button_map_request(btn_index));
    p
}

/// Packet that writes the firmware map of one button:
/// `01 06 10 04 00 | btn val_lo val_hi 00 00 00`.
pub fn button_map_write_packet(btn_index: u8, value: u16) -> (p: Vec<u8>)
    ensures
        p@ == spec_button_map_write(btn_index, value),
{
    let lo = (value & 0xff) as u8;
    let hi = (value >> 8) as u8;
    assert((value & 0xff) as u8 == (value % 256) as u8) by (bit_vector);
    assert((value >> 8) as u8 == (value / 256) as u8) by (bit_vector);
    let p: Vec<u8> = vec![0x01, 0x06, 0x10, 0x04, 0x00, btn_index, lo, hi, 0, 0, 0];
    assert(p@ =~= spec_button_map_write(btn_index, value));
    p
}

/// Request for the battery state (`_ReadBAT`, opcode 0x1A).
pub fn battery_request() -> (p: Vec<u8>)
    ensures
        p@ == spec_battery_request(),
{
    let p: Vec<u8> = vec![0x01, 0x06, 0x1a, 0x01];
    assert(p@ =~= spec_battery_request());
    p
}

/// The report that carries a packet: its first bytes (at most a report's
/// length), padded with zeros to a full report.
pub open spec fn spec_frame_report(pkt: Seq<u8>) -> Seq<u8> {
    Seq::new(REPORT_LEN as nat, |i: int| if i < pkt.len() { pkt[i] } else { 0u8 })
}

pub fn frame_report(pkt: &[u8]) -> (buf: Vec<u8>)
    ensures
        buf@ == spec_frame_report(pkt@),
{
    let mut buf: Vec<u8> = Vec::new();
    let mut i: usize = 0;
    while i < REPORT_LEN
        invariant
            i <= REPORT_LEN,
            buf@.len() == i,
            forall|k: int| 0 <= k < i ==> buf@[k] == spec_frame_report(pkt@)[k],
        decreases REPORT_LEN - i,
    {
        if i < pkt.len() {
            buf.push(pkt[i]);
        } else {
            buf.push(0);
        }
        i = i + 1;
    }
    assert(buf@ =~= spec_frame_report(pkt@));
    buf
}

// ----------------------------------------------------------------- replies

/// Whether `j` is the first of `replies` that `p` accepts.
pub open spec fn is_first_reply(replies: Seq<Vec<u8>>, j: int, p: spec_fn(Seq<u8>) -> bool) -> bool {
    &&& 0 <= j < replies.len()
    &&& p(replies[j]@)
    &&& forall|k: int| 0 <= k < j ==> !p(#[trigger] replies[k]@)
}

/// Whether some reply is accepted by `p`.
pub open spec fn some_reply(replies: Seq<Vec<u8>>, p: spec_fn(Seq<u8>) -> bool) -> bool {
    exists|j: int| 0 <= j < replies.len() && p(#[trigger] replies[j]@)
}

/// A reply to the DPI request: `01 06 12 ..`, at least 16 bytes.
pub open spec fn is_dpi_reply(r: Seq<u8>) -> bool {
    r.len() >= 16 && r[0] == 0x01 && r[1] == 0x06 && r[2] == 0x12
}

/// Number of stages the reply carries: the count in byte 4, cut to the
/// pairs of bytes that follow offset 8 in the reply.
pub open spec fn reply_stage_count(r: Seq<u8>) -> int {
    let room = (r.len() - 8) / 2;
    if (r[4] as int) < room {
        r[4] as int
    } else {
        room
    }
}

pub open spec fn reply_stages(r: Seq<u8>) -> Seq<u16> {
    Seq::new(reply_stage_count(r) as nat, |i: int| le16(r[8 + 2 * i], r[9 + 2 * i]) as u16)
}

/// Stages of a DPI reply; the default table where the reply lists none.
pub open spec fn dpi_stages(r: Seq<u8>) -> Seq<u16> {
    if reply_stages(r).len() == 0 {
        spec_default_dpi_stages()
    } else {
        reply_stages(r)
    }
}

/// Active stage of a DPI reply (byte 5), cut to the last stage.
pub open spec fn dpi_index(r: Seq<u8>) -> int {
    let last = dpi_stages(r).len() - 1;
    if (r[5] as int) < last {
        r[5] as int
    } else {
        last
    }
}

/// Current DPI of a DPI reply (bytes 6 and 7).
pub open spec fn dpi_current(r: Seq<u8>) -> u16 {
    le16(r[6], r[7]) as u16
}

/// `s` is what the DPI reply `r` reports.
pub open spec fn dpi_state_of(s: DpiState, r: Seq<u8>) -> bool {
    &&& s.index == dpi_index(r)
    &&& s.current_dpi == dpi_current(r)
    &&& s.stages@ == dpi_stages(r)
}

/// A reply to the button map request for `btn`: `01 .. 10 .. .. btn`, at
/// least 8 bytes.
pub open spec fn is_button_map_reply(r: Seq<u8>, btn_index: u8) -> bool {
    r.len() >= 8 && r[0] == 0x01 && r[2] == 0x10 && r[5] == btn_index
}

/// Map value of a button map reply (bytes 6 and 7).
pub open spec fn button_map_value(r: Seq<u8>) -> u16 {
    le16(r[6], r[7]) as u16
}

/// A reply to the battery request: `01 06 1A` with sub-code 01 (echo) or
/// 11 (data), at least 6 bytes.
pub open spec fn is_battery_reply(r: Seq<u8>) -> bool {
    &&& r.len() >= 6
    &&& r[0] == 0x01
    &&& r[1] == 0x06
    &&& r[2] == 0x1a
    &&& (r[3] == 0x01 || r[3] == 0x11)
}

/// Battery state of a battery reply: percent from byte 4 (at most 100),
/// charging from bit 0 of the status byte 5, known where either is nonzero.
pub open spec fn battery_of(r: Seq<u8>) -> BatteryState {
    let percent: u8 = if r[4] < 100 { r[4] } else { 100 };
    BatteryState {
        percent,
        charging: r[5] & 1u8 != 0,
        known: r[4] != 0 || r[5] != 0 || percent > 0,
    }
}

fn dpi_from_reply(r: &Vec<u8>) -> (s: DpiState)
    requires
        is_dpi_reply(r@),
    ensures
        dpi_state_of(s, r@),
        s.wf(),
{
    let count = r[4] as usize;
    let index = r[5] as usize;
    let current = u16_from_le(r[6], r[7]);
    let ghost room = (r@.len() - 8) / 2;
    let mut stages: Vec<u16> = Vec::new();
    let mut i: usize = 0;
    while i < count
        invariant
            is_dpi_reply(r@),
            count == r@[4],
            room == (r@.len() - 8) / 2,
            i <= count,
            stages@.len() == (if (i as int) < room { i as int } else { room }),
            forall|k: int|
                0 <= k < stages@.len() ==> stages@[k] == le16(r@[8 + 2 * k], r@[9 + 2 * k]) as u16,
        decreases count - i,
    {
        let off = 8 + i * 2;
        if off + 1 < r.len() {
            stages.push(u16_from_le(r[off], r[off + 1]));
        }
        i = i + 1;
    }
    assert(stages@ =~= reply_stages(r@));
    if stages.len() == 0 {
        stages = default_dpi_stages();
    }
    let last = stages.len() - 1;
    let index = if index < last {
        index
    } else {
        last
    };
    DpiState { index, current_dpi: current, stages }
}

/// The DPI state that the first DPI reply among `replies` reports;
/// `BadReply` where none of them is one.
pub fn read_dpi(replies: &Vec<Vec<u8>>) -> (res: Result<DpiState, HidError>)
    ensures
        res is Ok <==> some_reply(replies@, |r: Seq<u8>| is_dpi_reply(r)),
        res matches Ok(s) ==> s.wf() && exists|j: int|
            is_first_reply(replies@, j, |r: Seq<u8>| is_dpi_reply(r)) && dpi_state_of(
                s,
                #[trigger] replies@[j]@,
            ),
        res matches Err(e) ==> e is BadReply,
{
    let mut j: usize = 0;
    while j < replies.len()
        invariant
            j <= replies@.len(),
            forall|k: int| 0 <= k < j ==> !is_dpi_reply(#[trigger] replies@[k]@),
        decreases replies@.len() - j,
    {
        let r = &replies[j];
        if r.len() >= 16 && r[0] == 0x01 && r[1] == 0x06 && r[2] == 0x12 {
            let s = dpi_from_reply(r);
            assert(is_first_reply(replies@, j as int, |r: Seq<u8>| is_dpi_reply(r)));
            return Ok(s);
        }
        j = j + 1;
    }
    Err(HidError::BadReply)
}

/// The map value that the first reply for button `btn_index` among
/// `replies` carries; `BadReply` where none of them is one.
pub fn read_button_map(btn_index: u8, replies: &Vec<Vec<u8>>) -> (res: Result<u16, HidError>)
    ensures
        res is Ok <==> some_reply(replies@, |r: Seq<u8>| is_button_map_reply(r, btn_index)),
        res matches Ok(v) ==> exists|j: int|
            is_first_reply(replies@, j, |r: Seq<u8>| is_button_map_reply(r, btn_index)) && v
                == button_map_value(#[trigger] replies@[j]@),
        res matches Err(e) ==> e is BadReply,
{
    let mut j: usize = 0;
    while j < replies.len()
        invariant
            j <= replies@.len(),
            forall|k: int| 0 <= k < j ==> !is_button_map_reply(#[trigger] replies@[k]@, btn_index),
        decreases replies@.len() - j,
    {
        let r = &replies[j];
        if r.len() >= 8 && r[0] == 0x01 && r[2] == 0x10 && r[5] == btn_index {
            let v = u16_from_le(r[6], r[7]);
            assert(is_first_reply(
                replies@,
                j as int,
                |r: Seq<u8>| is_button_map_reply(r, btn_index),
            ));
            return Ok(v);
        }
        j = j + 1;
    }
    Err(HidError::BadReply)
}

fn battery_from_reply(r: &Vec<u8>) -> (b: BatteryState)
    requires
        is_battery_reply(r@),
    ensures
        b == battery_of(r@),
{
    let percent = if r[4] < 100 {
        r[4]
    } else {
        100
    };
    let status = r[5];
    let charging = status & 0x01 != 0;
    let known = r[4] != 0 || r[5] != 0 || percent > 0;
    BatteryState { percent, charging, known }
}

/// The battery state that the first battery reply among `replies` reports;
/// `BadReply` where none of them is one.
pub fn read_battery(replies: &Vec<Vec<u8>>) -> (res: Result<BatteryState, HidError>)
    ensures
        res is Ok <==> some_reply(replies@, |r: Seq<u8>| is_battery_reply(r)),
        res matches Ok(b) ==> exists|j: int|
            is_first_reply(replies@, j, |r: Seq<u8>| is_battery_reply(r)) && b == battery_of(
                #[trigger] replies@[j]@,
            ),
        res matches Err(e) ==> e is BadReply,
{
    let mut j: usize = 0;
    while j < replies.len()
        invariant
            j <= replies@.len(),
            forall|k: int| 0 <= k < j ==> !is_battery_reply(#[trigger] replies@[k]@),
        decreases replies@.len() - j,
    {
        let r = &replies[j];
        if r.len() < 6 || r[0] != 0x01 || r[1] != 0x06 || r[2] != 0x1a {
            j = j + 1;
            continue;
        }
        if r[3] != 0x01 && r[3] != 0x11 {
            j = j + 1;
            continue;
        }
        let b = battery_from_reply(r);
        assert(is_first_reply(replies@, j as int, |r: Seq<u8>| is_battery_reply(r)));
        return Ok(b);
    }
    Err(HidError::BadReply)
}

// -------------------------------------------------------------------- laws

/// The two bytes that a write packet carries for a value decode to that value.
pub proof fn lemma_le16_bytes(value: u16)
    ensures
        le16(lo_byte(value), hi_byte(value)) == value,
{
}

/// What a button map write packet writes is what the reply parser reads: the
/// packet, taken as a reply, is a reply for the same button and carries the
/// written value.
pub proof fn lemma_written_map_reads_back(btn_index: u8, value: u16)
    ensures
        is_button_map_reply(spec_button_map_write(btn_index, value), btn_index),
        button_map_value(spec_button_map_write(btn_index, value)) == value,
{
    lemma_le16_bytes(value);
}

/// Each reply answers its request: it carries the request's report id and
/// opcode (bytes 0 and 2; byte 1 too where the reply parser reads it); the
/// map request and the map write share the opcode and differ in the
/// sub-command (byte 3).
pub proof fn lemma_replies_answer_requests(r: Seq<u8>, btn: u8, value: u16)
    ensures
        is_dpi_reply(r) ==> r[0] == spec_dpi_request()[0] && r[1] == spec_dpi_request()[1] && r[2]
            == spec_dpi_request()[2],
        is_battery_reply(r) ==> r[0] == spec_battery_request()[0] && r[1]
            == spec_battery_request()[1] && r[2] == spec_battery_request()[2],
        is_battery_reply(r) ==> r[3] == spec_battery_request()[3] || r[3] == 0x11,
        is_button_map_reply(r, btn) ==> r[0] == spec_button_map_request(btn)[0] && r[2]
            == spec_button_map_request(btn)[2] && r[5] == spec_button_map_request(btn)[5],
        spec_button_map_write(btn, value)[2] == spec_button_map_request(btn)[2],
        spec_button_map_write(btn, value)[3] != spec_button_map_request(btn)[3],
        spec_dpi_request()[2] != spec_button_map_request(btn)[2] && spec_dpi_request()[2]
            != spec_battery_request()[2] && spec_battery_request()[2] != spec_button_map_request(
            btn,
        )[2],
{
}

/// A DPI reply whose count byte fits in the reply lists exactly that many
/// stages, stage `i` being the little-endian value of bytes `8 + 2i` and
/// `9 + 2i`; the active index is byte 5, cut to the last stage; the current
/// DPI is the little-endian value of bytes 6 and 7.
pub proof fn lemma_dpi_reply_decoded(r: Seq<u8>)
    requires
        is_dpi_reply(r),
        r[4] > 0,
        8 + 2 * (r[4] as int) <= r.len(),
    ensures
        dpi_stages(r).len() == r[4],
        forall|i: int|
            0 <= i < r[4] ==> #[trigger] dpi_stages(r)[i] as int == r[8 + 2 * i] as int + 256 * (r[9
                + 2 * i] as int),
        (r[5] as int) < (r[4] as int) ==> dpi_index(r) == r[5],
        (r[5] as int) >= (r[4] as int) ==> dpi_index(r) == r[4] - 1,
        dpi_current(r) as int == r[6] as int + 256 * (r[7] as int),
{
    assert(reply_stage_count(r) == r[4]);
    assert forall|i: int| 0 <= i < r[4] implies #[trigger] dpi_stages(r)[i] as int == r[8 + 2 * i] as int
        + 256 * (r[9 + 2 * i] as int) by {
        assert(dpi_stages(r)[i] == reply_stages(r)[i]);
    }
}

/// A DPI reply cuts its count only by its own length: where the count byte
/// asks for more stages than the reply holds, every whole pair of bytes
/// after offset 8 is a stage; where it lists none, the default table stands.
pub proof fn lemma_dpi_count_cut_by_length(r: Seq<u8>)
    requires
        is_dpi_reply(r),
    ensures
        8 + 2 * (r[4] as int) > r.len() ==> dpi_stages(r).len() == (r.len() - 8) / 2,
        r[4] == 0 ==> dpi_stages(r) == spec_default_dpi_stages(),
        dpi_stages(r).len() >= 1,
        0 <= dpi_index(r) < dpi_stages(r).len(),
        dpi_index(r) <= r[5],
{
}

/// The map request names the button it asks for: byte 5 is the button
/// index, so requests for different buttons differ; a reply that echoes the
/// request's button is a reply for that button. The same holds of the write
/// packet.
pub proof fn lemma_map_request_names_button(b1: u8, b2: u8, value: u16, r: Seq<u8>)
    ensures
        spec_button_map_request(b1).len() == 6,
        spec_button_map_request(b1)[5] == b1,
        spec_button_map_request(b1) == spec_button_map_request(b2) ==> b1 == b2,
        spec_button_map_write(b1, value)[5] == b1,
        spec_button_map_write(b1, value) == spec_button_map_write(b2, value) ==> b1 == b2,
        (r.len() >= 8 && r[0] == 0x01 && r[2] == 0x10 && r[5] == spec_button_map_request(b1)[5])
            ==> is_button_map_reply(r, b1),
{
    if spec_button_map_request(b1) == spec_button_map_request(b2) {
        assert(spec_button_map_request(b1)[5] == spec_button_map_request(b2)[5]);
    }
    if spec_button_map_write(b1, value) == spec_button_map_write(b2, value) {
        assert(spec_button_map_write(b1, value)[5] == spec_button_map_write(b2, value)[5]);
    }
}

/// A battery reading reports byte 4 as the percent where it is at most 100,
/// and charging exactly where bit 0 of byte 5 is set.
pub proof fn lemma_battery_fields(r: Seq<u8>)
    requires
        is_battery_reply(r),
    ensures
        r[4] <= 100 ==> battery_of(r).percent == r[4],
        r[4] > 100 ==> battery_of(r).percent == 100,
        battery_of(r).charging <==> r[5] % 2 == 1,
{
    let s = r[5];
    assert(s & 1u8 != 0 <==> s % 2 == 1) by (bit_vector);
}

/// A battery reading never reports more than 100 percent, counts as unknown
/// exactly where the payload is empty, and a charging mouse always counts as
/// known.
pub proof fn lemma_battery_bounds(r: Seq<u8>)
    requires
        is_battery_reply(r),
    ensures
        battery_of(r).percent <= 100,
        !battery_of(r).known <==> (r[4] == 0 && r[5] == 0),
        battery_of(r).charging ==> battery_of(r).known,
{
    let s = r[5];
    assert(s & 1u8 != 0 ==> s != 0) by (bit_vector);
}

/// Every stage of the default table has an LED colour.
pub proof fn lemma_default_stages_have_colors(i: int)
    requires
        0 <= i < spec_default_dpi_stages().len(),
    ensures
        spec_stage_color(i) is Some,
{
}

/// A packet that fits in a report is its prefix, and the rest is zero.
pub proof fn lemma_frame_keeps_packet(pkt: Seq<u8>)
    requires
        pkt.len() <= REPORT_LEN,
    ensures
        spec_frame_report(pkt).len() == REPORT_LEN,
        spec_frame_report(pkt).take(pkt.len() as int) == pkt,
        forall|i: int| pkt.len() <= i < REPORT_LEN ==> spec_frame_report(pkt)[i] == 0,
{
    assert(spec_frame_report(pkt).take(pkt.len() as int) =~= pkt);
}

} // verus!
