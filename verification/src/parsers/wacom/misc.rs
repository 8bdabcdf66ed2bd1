//! Wacom 64-byte aux reports.
use crate::parsers::ReportParser;
use crate::report::{aux_report, aux_view, hex_dump, hex_dump_all, TabletData, TabletDataView};
use vstd::prelude::*;

verus! {

pub struct Wacom64bAuxParser;

/// The key bits of chunk `i`: chunks are 8 bytes apart from byte 2; a chunk
/// with id 0x80 carries four keys in the low bits of its next byte. Chunks
/// that do not fit the packet carry nothing.
pub open spec fn wacom64_chunk_keys(d: Seq<u8>, i: int) -> u8 {
    let offset = 8 * i + 2;
    if offset + 1 < d.len() && d[offset] == 0x80 {
        d[offset + 1] & 0x0Fu8
    } else {
        0
    }
}

/// The keys of the first `n` chunks, combined.
pub open spec fn wacom64_keys(d: Seq<u8>, n: nat) -> u8
    decreases n,
{
    if n == 0 {
        0
    } else {
        wacom64_keys(d, (n - 1) as nat) | wacom64_chunk_keys(d, n - 1)
    }
}

/// Byte 1 counts the chunks; byte 2 0x81 is a touch report (ignored). A
/// packet of fewer than three bytes is malformed.
pub open spec fn wacom64_aux_report(d: Seq<u8>) -> Option<TabletDataView> {
    if d.len() < 3 || d[2] == 0x81 {
        None
    } else {
        Some(aux_view(wacom64_keys(d, d[1] as nat), hex_dump(d)))
    }
}

impl ReportParser for Wacom64bAuxParser {
    open spec fn step(&self, data: Seq<u8>) -> (Self, Option<TabletDataView>) {
        (*self, wacom64_aux_report(data))
    }

    fn parse(&mut self, data: &[u8]) -> (r: Option<TabletData>) {
        if data.len() < 3 {
            return None;
        }
        let raw = hex_dump_all(data);
        if data[2] == 0x81 {
            return None;
        }
        let n_chunks = data[1] as usize;
        let mut buttons: u8 = 0;
        let mut i: usize = 0;
        while i < n_chunks
            invariant
                n_chunks == data@[1],
                i <= n_chunks,
                buttons == wacom64_keys(data@, i as nat),
            decreases n_chunks - i,
        {
            let offset = (i * 8) + 2;
            if offset + 1 < data.len() && data[offset] == 0x80 {
                let aux_byte = data[offset + 1];
                buttons = buttons | (aux_byte & 0x0F);
            } else {
                buttons = buttons | 0;
            }
            i = i + 1;
        }
        Some(aux_report(buttons, raw))
    }
}

} // verus!
