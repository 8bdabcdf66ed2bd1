//! The unified pen report that every vendor parser produces, its mathematical
//! view, and the byte-level helpers shared by the parsers.
use vstd::prelude::*;
use vstd::string::*;

verus! {

/// Standardized representation of one decoded pen, aux or mouse report.
///
/// Every parser produces this value regardless of the tablet hardware.
#[derive(Debug, Clone)]
pub struct TabletData {
    /// Identifies the kind of report ("Contact", "Hover", "Aux", ...).
    pub status: String,
    /// Raw X coordinate from the tablet sensor.
    pub x: u16,
    /// Raw Y coordinate from the tablet sensor.
    pub y: u16,
    /// Raw pressure applied to the nib.
    pub pressure: u16,
    /// Horizontal pen tilt in degrees (if supported by hardware).
    pub tilt_x: i8,
    /// Vertical pen tilt in degrees (if supported by hardware).
    pub tilt_y: i8,
    /// Bitmask of pressed pen or aux buttons.
    pub buttons: u8,
    /// Whether the eraser end of the pen is in use.
    pub eraser: bool,
    /// Proximity of the pen to the surface in vendor units.
    pub hover_distance: u8,
    /// Upper-case hexadecimal dump of the packet, bytes separated by spaces.
    pub raw_data: String,
    /// Connection status of the device.
    pub is_connected: bool,
}

/// The mathematical value of a [`TabletData`]: the strings are taken by their characters.
#[verifier::ext_equal]
pub struct TabletDataView {
    pub status: Seq<char>,
    pub x: u16,
    pub y: u16,
    pub pressure: u16,
    pub tilt_x: i8,
    pub tilt_y: i8,
    pub buttons: u8,
    pub eraser: bool,
    pub hover_distance: u8,
    pub raw_data: Seq<char>,
    pub is_connected: bool,
}

impl View for TabletData {
    type V = TabletDataView;

    open spec fn view(&self) -> TabletDataView {
        TabletDataView {
            status: self.status@,
            x: self.x,
            y: self.y,
            pressure: self.pressure,
            tilt_x: self.tilt_x,
            tilt_y: self.tilt_y,
            buttons: self.buttons,
            eraser: self.eraser,
            hover_distance: self.hover_distance,
            raw_data: self.raw_data@,
            is_connected: self.is_connected,
        }
    }
}

impl DeepView for TabletData {
    type V = TabletDataView;

    open spec fn deep_view(&self) -> TabletDataView {
        self@
    }
}

/// The view of a parser's answer: `None` where the packet is not a report it decodes.
pub open spec fn report_view(r: Option<TabletData>) -> Option<TabletDataView> {
    match r {
        Some(d) => Some(d@),
        None => None,
    }
}

// ---------------------------------------------------------------------------
// Status words
// ---------------------------------------------------------------------------

pub open spec fn contact_status() -> Seq<char> {
    "Contact"@
}

pub open spec fn hover_status() -> Seq<char> {
    "Hover"@
}

pub open spec fn out_of_range_status() -> Seq<char> {
    "Out of Range"@
}

pub open spec fn aux_status() -> Seq<char> {
    "Aux"@
}

pub open spec fn mouse_status() -> Seq<char> {
    "Mouse"@
}

pub open spec fn active_status() -> Seq<char> {
    "Active"@
}

pub open spec fn rotation_status() -> Seq<char> {
    "Rotation"@
}

pub open spec fn tool_status() -> Seq<char> {
    "Tool"@
}

/// "Contact" when the nib is pressed, "Hover" otherwise.
pub open spec fn contact_or_hover(pressure: int) -> Seq<char> {
    if pressure > 0 {
        contact_status()
    } else {
        hover_status()
    }
}

pub fn status_contact() -> (s: String)
    ensures
        s@ == contact_status(),
{
    String::from_str("Contact")
}

pub fn status_hover() -> (s: String)
    ensures
        s@ == hover_status(),
{
    String::from_str("Hover")
}

pub fn status_out_of_range() -> (s: String)
    ensures
        s@ == out_of_range_status(),
{
    String::from_str("Out of Range")
}

pub fn status_aux() -> (s: String)
    ensures
        s@ == aux_status(),
{
    String::from_str("Aux")
}

pub fn status_mouse() -> (s: String)
    ensures
        s@ == mouse_status(),
{
    String::from_str("Mouse")
}

pub fn status_active() -> (s: String)
    ensures
        s@ == active_status(),
{
    String::from_str("Active")
}

pub fn status_rotation() -> (s: String)
    ensures
        s@ == rotation_status(),
{
    String::from_str("Rotation")
}

pub fn status_tool() -> (s: String)
    ensures
        s@ == tool_status(),
{
    String::from_str("Tool")
}

pub fn status_contact_or_hover(pressure: u16) -> (s: String)
    ensures
        s@ == contact_or_hover(pressure as int),
{
    if pressure > 0 {
        status_contact()
    } else {
        status_hover()
    }
}

/// The empty report: no status, every number zero, not connected.
pub open spec fn empty_view() -> TabletDataView {
    TabletDataView {
        status: Seq::empty(),
        x: 0,
        y: 0,
        pressure: 0,
        tilt_x: 0,
        tilt_y: 0,
        buttons: 0,
        eraser: false,
        hover_distance: 0,
        raw_data: Seq::empty(),
        is_connected: false,
    }
}

impl Default for TabletData {
    fn default() -> (d: Self)
        ensures
            d@ == empty_view(),
    {
        TabletData {
            status: String::new(),
            x: 0,
            y: 0,
            pressure: 0,
            tilt_x: 0,
            tilt_y: 0,
            buttons: 0,
            eraser: false,
            hover_distance: 0,
            raw_data: String::new(),
            is_connected: false,
        }
    }
}

impl TabletData {
    /// The report the engine passes on when a read returns no packet: the
    /// empty report with the status "Out of Range".
    pub fn out_of_range() -> (d: Self)
        ensures
            d@ == (TabletDataView { status: out_of_range_status(), ..empty_view() }),
    {
        let mut d = TabletData::default();
        d.status = status_out_of_range();
        d
    }
}

// ---------------------------------------------------------------------------
// Byte helpers
// ---------------------------------------------------------------------------

/// Little-endian 16-bit value of two bytes.
pub open spec fn le16(lo: u8, hi: u8) -> u16 {
    (lo + 256 * hi) as u16
}

/// Big-endian 16-bit value of two bytes.
pub open spec fn be16(hi: u8, lo: u8) -> u16 {
    le16(lo, hi)
}

/// A byte read as a two's-complement signed value.
pub open spec fn signed8(b: u8) -> i8 {
    if b < 128 {
        b as i8
    } else {
        (b - 256) as i8
    }
}

/// `v` when `c` holds, 0 otherwise: one bit of a button mask.
pub open spec fn flag(c: bool, v: int) -> int {
    if c {
        v
    } else {
        0
    }
}

/// Whether any bit of `mask` is set in `b`.
pub open spec fn has_bits(b: u8, mask: u8) -> bool {
    b & mask != 0
}

pub fn read_le16(lo: u8, hi: u8) -> (r: u16)
    ensures
        r == le16(lo, hi),
{
    lo as u16 + (hi as u16) * 256
}

pub fn to_i8(b: u8) -> (r: i8)
    ensures
        r == signed8(b),
{
    assert(b < 128 ==> b as i8 == b as int) by (bit_vector);
    assert(b >= 128 ==> b as i8 == b - 256) by (bit_vector);
    b as i8
}

/// Little-endian 16-bit two's-complement value of two bytes.
pub open spec fn signed16(lo: u8, hi: u8) -> i16 {
    let u = le16(lo, hi);
    if u < 32768 {
        u as i16
    } else {
        (u - 65536) as i16
    }
}

/// `v` limited to the range of `i8`.
pub open spec fn saturate_i8(v: int) -> i8 {
    if v > 127 {
        127
    } else if v < -128 {
        -128i8
    } else {
        v as i8
    }
}

/// The negation of `v` in `i8`, where -128 stays -128.
pub open spec fn wrapping_neg_i8(v: i8) -> i8 {
    if v == -128 {
        -128i8
    } else {
        (-v) as i8
    }
}

pub fn read_signed16(lo: u8, hi: u8) -> (r: i16)
    ensures
        r == signed16(lo, hi),
{
    let u = read_le16(lo, hi);
    if u < 32768 {
        u as i16
    } else {
        (u as i32 - 65536) as i16
    }
}

pub fn negate_i8(v: i8) -> (r: i8)
    ensures
        r == wrapping_neg_i8(v),
{
    if v == -128 {
        -128
    } else {
        -v
    }
}

/// One bit of a button mask: `v` when `b` has a bit of `mask` set.
pub fn bit_flag(b: u8, mask: u8, v: u8) -> (r: u8)
    ensures
        r == flag(has_bits(b, mask), v as int),
{
    if b & mask != 0 {
        v
    } else {
        0
    }
}

// ---------------------------------------------------------------------------
// Report shapes
// ---------------------------------------------------------------------------

/// A positional pen report of a connected tablet.
pub open spec fn pen_view(
    status: Seq<char>,
    x: u16,
    y: u16,
    pressure: u16,
    tilt_x: i8,
    tilt_y: i8,
    buttons: u8,
    eraser: bool,
    hover_distance: u8,
    raw_data: Seq<char>,
) -> TabletDataView {
    TabletDataView {
        status,
        x,
        y,
        pressure,
        tilt_x,
        tilt_y,
        buttons,
        eraser,
        hover_distance,
        raw_data,
        is_connected: true,
    }
}

/// An auxiliary (express key) report: only the button mask is meaningful.
pub open spec fn aux_view(buttons: u8, raw_data: Seq<char>) -> TabletDataView {
    pen_view(aux_status(), 0, 0, 0, 0, 0, buttons, false, 0, raw_data)
}

/// A puck (mouse tool) report: position and buttons.
pub open spec fn mouse_view(x: u16, y: u16, buttons: u8, raw_data: Seq<char>) -> TabletDataView {
    pen_view(mouse_status(), x, y, 0, 0, 0, buttons, false, 0, raw_data)
}

pub fn pen_report(
    status: String,
    x: u16,
    y: u16,
    pressure: u16,
    tilt_x: i8,
    tilt_y: i8,
    buttons: u8,
    eraser: bool,
    hover_distance: u8,
    raw_data: String,
) -> (r: TabletData)
    ensures
        r@ == pen_view(
            status@,
            x,
            y,
            pressure,
            tilt_x,
            tilt_y,
            buttons,
            eraser,
            hover_distance,
            raw_data@,
        ),
{
    TabletData {
        status,
        x,
        y,
        pressure,
        tilt_x,
        tilt_y,
        buttons,
        eraser,
        hover_distance,
        raw_data,
        is_connected: true,
    }
}

pub fn aux_report(buttons: u8, raw_data: String) -> (r: TabletData)
    ensures
        r@ == aux_view(buttons, raw_data@),
{
    pen_report(status_aux(), 0, 0, 0, 0, 0, buttons, false, 0, raw_data)
}

pub fn mouse_report(x: u16, y: u16, buttons: u8, raw_data: String) -> (r: TabletData)
    ensures
        r@ == mouse_view(x, y, buttons, raw_data@),
{
    pen_report(status_mouse(), x, y, 0, 0, 0, buttons, false, 0, raw_data)
}

// ---------------------------------------------------------------------------
// Hexadecimal packet dump
// ---------------------------------------------------------------------------

/// The upper-case hexadecimal digit of a nibble.
pub open spec fn hex_char(n: int) -> char {
    seq!['0', '1', '2', '3', '4', '5', '6', '7', '8', '9', 'A', 'B', 'C', 'D', 'E', 'F'][n]
}

/// A byte as two upper-case hexadecimal digits.
pub open spec fn hex_byte(b: u8) -> Seq<char> {
    seq![hex_char((b / 16) as int), hex_char((b % 16) as int)]
}

/// The bytes as two-digit upper-case hexadecimal numbers separated by single spaces.
pub open spec fn hex_dump(s: Seq<u8>) -> Seq<char>
    decreases s.len(),
{
    if s.len() == 0 {
        Seq::empty()
    } else if s.len() == 1 {
        hex_byte(s[0])
    } else {
        hex_dump(s.drop_last()) + seq![' '] + hex_byte(s.last())
    }
}

/// A dump holds three characters per byte but the last: byte `i` is the
/// two digits at `3 * i`, and a space follows every byte but the last.
pub proof fn lemma_hex_dump_layout(s: Seq<u8>)
    ensures
        s.len() == 0 ==> hex_dump(s).len() == 0,
        s.len() > 0 ==> hex_dump(s).len() == 3 * s.len() - 1,
        forall|i: int|
            0 <= i < s.len() ==> #[trigger] hex_dump(s).subrange(3 * i, 3 * i + 2) == hex_byte(
                s[i],
            ),
        forall|i: int| 0 <= i < s.len() - 1 ==> #[trigger] hex_dump(s)[3 * i + 2] == ' ',
    decreases s.len(),
{
    if s.len() == 1 {
        assert(hex_dump(s).subrange(0, 2) =~= hex_byte(s[0]));
    } else if s.len() > 1 {
        let p = s.drop_last();
        lemma_hex_dump_layout(p);
        let d = hex_dump(s);
        let n = s.len() as int;
        assert(d == hex_dump(p) + seq![' '] + hex_byte(s.last()));
        assert forall|i: int| 0 <= i < n implies #[trigger] d.subrange(3 * i, 3 * i + 2)
            == hex_byte(s[i]) by {
            if i < n - 1 {
                assert(d.subrange(3 * i, 3 * i + 2) =~= hex_dump(p).subrange(3 * i, 3 * i + 2));
                assert(p[i] == s[i]);
            } else {
                assert(d.subrange(3 * i, 3 * i + 2) =~= hex_byte(s.last()));
            }
        }
        assert forall|i: int| 0 <= i < n - 1 implies #[trigger] d[3 * i + 2] == ' ' by {
            if i < n - 2 {
                assert(d[3 * i + 2] == hex_dump(p)[3 * i + 2]);
            }
        }
    }
}

/// The dump of at most the first `limit` bytes.
pub open spec fn hex_dump_prefix(s: Seq<u8>, limit: nat) -> Seq<char> {
    if s.len() <= limit {
        hex_dump(s)
    } else {
        hex_dump(s.take(limit as int))
    }
}

fn hex_digit(n: u8) -> (s: &'static str)
    requires
        n < 16,
    ensures
        s@ == seq![hex_char(n as int)],
{
    match n {
        0 => {
            proof {
                reveal_strlit("0");
            }
            "0"
        },
        1 => {
            proof {
                reveal_strlit("1");
            }
            "1"
        },
        2 => {
            proof {
                reveal_strlit("2");
            }
            "2"
        },
        3 => {
            proof {
                reveal_strlit("3");
            }
            "3"
        },
        4 => {
            proof {
                reveal_strlit("4");
            }
            "4"
        },
        5 => {
            proof {
                reveal_strlit("5");
            }
            "5"
        },
        6 => {
            proof {
                reveal_strlit("6");
            }
            "6"
        },
        7 => {
            proof {
                reveal_strlit("7");
            }
            "7"
        },
        8 => {
            proof {
                reveal_strlit("8");
            }
            "8"
        },
        9 => {
            proof {
                reveal_strlit("9");
            }
            "9"
        },
        10 => {
            proof {
                reveal_strlit("A");
            }
            "A"
        },
        11 => {
            proof {
                reveal_strlit("B");
            }
            "B"
        },
        12 => {
            proof {
                reveal_strlit("C");
            }
            "C"
        },
        13 => {
            proof {
                reveal_strlit("D");
            }
            "D"
        },
        14 => {
            proof {
                reveal_strlit("E");
            }
            "E"
        },
        _ => {
            proof {
                reveal_strlit("F");
            }
            "F"
        },
    }
}

/// Dumps at most the first `limit` bytes of `data` as upper-case hexadecimal.
pub fn hex_dump_bytes(data: &[u8], limit: usize) -> (s: String)
    ensures
        s@ == hex_dump_prefix(data@, limit as nat),
{
    let n: usize = if data.len() < limit {
        data.len()
    } else {
        limit
    };
    let mut s = String::new();
    let mut i: usize = 0;
    proof {
        reveal_strlit(" ");
        assert(data@.take(0) =~= Seq::<u8>::empty());
    }
    while i < n
        invariant
            n <= data@.len(),
            i <= n,
            s@ == hex_dump(data@.take(i as int)),
            " "@ == seq![' '],
        decreases n - i,
    {
        let b = data[i];
        let ghost prev = s@;
        if i > 0 {
            s.append(" ");
        }
        s.append(hex_digit(b / 16));
        s.append(hex_digit(b % 16));
        proof {
            let t = data@.take(i + 1);
            assert(t.drop_last() =~= data@.take(i as int));
            assert(t.last() == b);
            if i == 0 {
                assert(s@ =~= hex_byte(b));
            } else {
                assert(s@ =~= prev + seq![' '] + hex_byte(b));
            }
        }
        i = i + 1;
    }
    proof {
        if data@.len() <= limit {
            assert(data@.take(n as int) =~= data@);
        }
    }
    s
}

/// Dumps the whole packet as upper-case hexadecimal.
pub fn hex_dump_all(data: &[u8]) -> (s: String)
    ensures
        s@ == hex_dump(data@),
{
    hex_dump_bytes(data, data.len())
}

} // verus!
