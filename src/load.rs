//! The snapshot of load percentages that clients read, and its five-byte
//! wire form.
use vstd::prelude::*;

verus! {

/// A load percentage: an integer in `[0, 100]`.
pub open spec fn is_percent(v: i8) -> bool {
    0 <= v && v <= 100
}

/// The current load percentages. Swap load is `-1` where no swap is configured.
#[derive(Clone, Copy, Debug, PartialEq, Eq, Structural)]
pub struct LoadData {
    pub cpu_load: i8,
    pub mem_load: i8,
    pub swap_load: i8,
    pub net_in: i8,
    pub net_out: i8,
}

/// The unsigned byte holding the two's-complement form of `v`.
pub open spec fn byte_of(v: i8) -> u8 {
    if v >= 0 {
        v as u8
    } else {
        (v + 256) as u8
    }
}

/// The signed value whose two's-complement form is `b`.
pub open spec fn signed_of(b: u8) -> i8 {
    if b < 128 {
        b as i8
    } else {
        (b - 256) as i8
    }
}

fn to_byte(v: i8) -> (r: u8)
    ensures
        r == byte_of(v),
{
    if v >= 0 {
        v as u8
    } else {
        (v as i16 + 256) as u8
    }
}

fn from_byte(b: u8) -> (r: i8)
    ensures
        r == signed_of(b),
{
    if b < 128 {
        b as i8
    } else {
        (b as i16 - 256) as i8
    }
}

impl LoadData {
    /// Every field is a percentage, but swap load, which may also be `-1`.
    pub open spec fn wf(&self) -> bool {
        &&& is_percent(self.cpu_load)
        &&& is_percent(self.mem_load)
        &&& (is_percent(self.swap_load) || self.swap_load == -1)
        &&& is_percent(self.net_in)
        &&& is_percent(self.net_out)
    }

    /// The reply to a read command: CPU, memory, swap, inbound, outbound.
    pub open spec fn bytes(&self) -> Seq<u8> {
        seq![
            byte_of(self.cpu_load),
            byte_of(self.mem_load),
            byte_of(self.swap_load),
            byte_of(self.net_in),
            byte_of(self.net_out),
        ]
    }

    pub open spec fn of_bytes(b: Seq<u8>) -> LoadData {
        LoadData {
            cpu_load: signed_of(b[0]),
            mem_load: signed_of(b[1]),
            swap_load: signed_of(b[2]),
            net_in: signed_of(b[3]),
            net_out: signed_of(b[4]),
        }
    }

    /// All loads zero.
    pub fn new() -> (r: LoadData)
        ensures
            r == (LoadData { cpu_load: 0, mem_load: 0, swap_load: 0, net_in: 0, net_out: 0 }),
            r.wf(),
    {
        LoadData { cpu_load: 0, mem_load: 0, swap_load: 0, net_in: 0, net_out: 0 }
    }

    /// The five-byte wire form of the snapshot.
    pub fn to_bytes(&self) -> (r: [u8; 5])
        ensures
            r@ == self.bytes(),
    {
        [
            to_byte(self.cpu_load),
            to_byte(self.mem_load),
            to_byte(self.swap_load),
            to_byte(self.net_in),
            to_byte(self.net_out),
        ]
    }

    /// The snapshot that a five-byte reply carries.
    pub fn from_bytes(b: [u8; 5]) -> (r: LoadData)
        ensures
            r == LoadData::of_bytes(b@),
    {
        LoadData {
            cpu_load: from_byte(b[0]),
            mem_load: from_byte(b[1]),
            swap_load: from_byte(b[2]),
            net_in: from_byte(b[3]),
            net_out: from_byte(b[4]),
        }
    }
}

/// Reading back the reply to a read command gives the snapshot it was made
/// from, field for field.
pub proof fn lemma_bytes_round_trip(ld: LoadData)
    ensures
        ld.bytes().len() == 5,
        LoadData::of_bytes(ld.bytes()) == ld,
{
}

/// The glyph of a vertical bar filled to `level` eighths.
pub open spec fn bar_glyph(level: int) -> char {
    if level <= 0 {
        ' '
    } else if level == 1 {
        '\u{2581}'
    } else if level == 2 {
        '\u{2582}'
    } else if level == 3 {
        '\u{2583}'
    } else if level == 4 {
        '\u{2584}'
    } else if level == 5 {
        '\u{2585}'
    } else if level == 6 {
        '\u{2586}'
    } else if level == 7 {
        '\u{2587}'
    } else {
        '\u{2588}'
    }
}

/// A vertical bar for a percentage: 0 is an empty bar, 100 a full one, in
/// eight steps.
pub fn percentage_bar_v(percentage: i8) -> (r: char)
    requires
        is_percent(percentage),
    ensures
        r == bar_glyph(percentage * 8 / 100),
{
    let level: i8 = (percentage as i16 * 8 / 100) as i8;
    if level <= 0 {
        ' '
    } else if level == 1 {
        '\u{2581}'
    } else if level == 2 {
        '\u{2582}'
    } else if level == 3 {
        '\u{2583}'
    } else if level == 4 {
        '\u{2584}'
    } else if level == 5 {
        '\u{2585}'
    } else if level == 6 {
        '\u{2586}'
    } else if level == 7 {
        '\u{2587}'
    } else {
        '\u{2588}'
    }
}

/// A percentage capped at 99, so that it fits two columns.
pub fn max_99(p: i8) -> (r: i8)
    ensures
        r == (if p >= 100 { 99 } else { p }),
{
    if p >= 100 {
        99
    } else {
        p
    }
}

} // verus!
