//! The archive scan: a single cursor-driven pass over the buffer that
//! finds local file headers, bounds-checks every declared region, and
//! decodes the entries the selection policy accepts.

use vstd::prelude::*;
use vstd::slice::slice_subrange;
use crate::decode::decode_payload;
use crate::decode::inflate_of;
use crate::decode::opt_string_view;
use crate::decode::spec_payload_value;
use crate::decode::METHOD_DEFLATE;
use crate::selector::SelectorConfig;

verus! {

/// A little-endian 16-bit field read at `pos`.
pub open spec fn le16_at(b: Seq<u8>, pos: int) -> int {
    b[pos] + 256 * b[pos + 1]
}

/// A little-endian 32-bit field read at `pos`.
pub open spec fn le32_at(b: Seq<u8>, pos: int) -> int {
    b[pos] + 256 * b[pos + 1] + 65536 * b[pos + 2] + 16777216 * b[pos + 3]
}

/// True when the four bytes at `pos` are the local-file-header magic.
pub open spec fn magic_at(b: Seq<u8>, pos: int) -> bool {
    b[pos] == 0x50u8 && b[pos + 1] == 0x4bu8 && b[pos + 2] == 0x03u8 && b[pos + 3] == 0x04u8
}

/// Reads a little-endian 16-bit field.
fn read_le16(b: &[u8], i: usize) -> (r: u16)
    requires
        i + 2 <= b@.len(),
    ensures
        r as int == le16_at(b@, i as int),
{
    b[i] as u16 + (b[i + 1] as u16) * 256
}

/// Reads a little-endian 32-bit field.
fn read_le32(b: &[u8], i: usize) -> (r: u32)
    requires
        i + 4 <= b@.len(),
    ensures
        r as int == le32_at(b@, i as int),
{
    b[i] as u32 + (b[i + 1] as u32) * 256 + (b[i + 2] as u32) * 65536 + (b[i + 3] as u32)
        * 16777216
}

/// The declared compression method of the header at `pos`.
pub open spec fn method_at(b: Seq<u8>, pos: int) -> int {
    le16_at(b, pos + 8)
}

/// The declared compressed size of the header at `pos`.
pub open spec fn csize_at(b: Seq<u8>, pos: int) -> int {
    le32_at(b, pos + 18)
}

/// The declared name length of the header at `pos`.
pub open spec fn name_len_at(b: Seq<u8>, pos: int) -> int {
    le16_at(b, pos + 26)
}

/// The declared extra-field length of the header at `pos`.
pub open spec fn extra_len_at(b: Seq<u8>, pos: int) -> int {
    le16_at(b, pos + 28)
}

/// Where the name region of the entry at `pos` ends: the fixed header is
/// 30 bytes, the name follows it.
pub open spec fn name_end_at(b: Seq<u8>, pos: int) -> int {
    pos + 30 + name_len_at(b, pos)
}

/// Where the payload region of the entry at `pos` starts: the extra
/// field follows the name.
pub open spec fn data_start_at(b: Seq<u8>, pos: int) -> int {
    name_end_at(b, pos) + extra_len_at(b, pos)
}

/// Where the payload region of the entry at `pos` ends.
pub open spec fn data_end_at(b: Seq<u8>, pos: int) -> int {
    data_start_at(b, pos) + csize_at(b, pos)
}

/// The raw name of the entry at `pos`.
pub open spec fn entry_name_at(b: Seq<u8>, pos: int) -> Seq<u8> {
    b.subrange(pos + 30, name_end_at(b, pos))
}

/// The payload region of the entry at `pos`.
pub open spec fn payload_region_at(b: Seq<u8>, pos: int) -> Seq<u8> {
    b.subrange(data_start_at(b, pos), data_end_at(b, pos))
}

/// The value the entry at `pos` contributes: the canonical text of its
/// decoded payload when its name qualifies and decoding succeeds,
/// nothing otherwise.
pub open spec fn spec_entry_value(b: Seq<u8>, cfg: SelectorConfig, pos: int) -> Option<Seq<char>> {
    if cfg.spec_selects(entry_name_at(b, pos)) {
        spec_payload_value(method_at(b, pos), payload_region_at(b, pos))
    } else {
        None
    }
}

/// An optional value as a sequence of zero or one elements.
pub open spec fn opt_to_seq<T>(o: Option<T>) -> Seq<T> {
    match o {
        Some(v) => seq![v],
        None => Seq::empty(),
    }
}

/// The values the scan collects from `pos` to the end of the buffer: at
/// a header magic it appends the entry's value (if any) and resumes
/// after the payload; at any other byte it advances by one; it stops
/// when fewer bytes than a header remain or a declared region overruns
/// the buffer.
pub open spec fn spec_scan(b: Seq<u8>, cfg: SelectorConfig, pos: int) -> Seq<Seq<char>>
    decreases b.len() - pos,
{
    if 0 <= pos && pos + 30 < b.len() {
        if !magic_at(b, pos) {
            spec_scan(b, cfg, pos + 1)
        } else if name_end_at(b, pos) > b.len() {
            Seq::empty()
        } else if data_end_at(b, pos) > b.len() {
            Seq::empty()
        } else {
            opt_to_seq(spec_entry_value(b, cfg, pos)) + spec_scan(b, cfg, data_end_at(b, pos))
        }
    } else {
        Seq::empty()
    }
}

/// The views of a sequence of owned strings.
pub open spec fn seq_views(s: Seq<String>) -> Seq<Seq<char>> {
    s.map_values(|t: String| t@)
}

/// Scans the buffer for local file headers and returns, in buffer order,
/// the canonical text of every entry whose name satisfies the selection
/// policy and whose payload decodes to a well-formed structured value.
/// Malformed entries are skipped; a region that overruns the buffer ends
/// the scan with the results collected so far.
pub fn extract_jsons(buffer: &[u8], cfg: &SelectorConfig) -> (r: Vec<String>)
    ensures
        seq_views(r@) == spec_scan(buffer@, *cfg, 0),
        r@.len() == spec_scan(buffer@, *cfg, 0).len(),
{
    let n = buffer.len();
    let mut results: Vec<String> = Vec::new();
    let mut pos: usize = 0;
    while n - pos > 30
        invariant
            pos <= n,
            n == buffer@.len(),
            spec_scan(buffer@, *cfg, 0) == seq_views(results@) + spec_scan(
                buffer@,
                *cfg,
                pos as int,
            ),
        ensures
            seq_views(results@) == spec_scan(buffer@, *cfg, 0),
        decreases n - pos,
    {
        if !(buffer[pos] == 0x50u8 && buffer[pos + 1] == 0x4bu8 && buffer[pos + 2] == 0x03u8
            && buffer[pos + 3] == 0x04u8) {
            pos = pos + 1;
            continue;
        }
        let method = read_le16(buffer, pos + 8);
        let csize = read_le32(buffer, pos + 18) as usize;
        let nlen = read_le16(buffer, pos + 26) as usize;
        let elen = read_le16(buffer, pos + 28) as usize;

        proof {
            assert(magic_at(buffer@, pos as int));
        }
        let name_start = pos + 30;
        if nlen > n - name_start {
            // the name region overruns the buffer: the archive is truncated
            proof {
                assert(spec_scan(buffer@, *cfg, pos as int) =~= Seq::<Seq<char>>::empty());
                assert(seq_views(results@) + Seq::<Seq<char>>::empty() =~= seq_views(results@));
            }
            break;
        }
        let name_end = name_start + nlen;
        if elen > n - name_end {
            // the extra field overruns the buffer, so the payload does too
            proof {
                assert(data_end_at(buffer@, pos as int) > n);
                assert(spec_scan(buffer@, *cfg, pos as int) =~= Seq::<Seq<char>>::empty());
                assert(seq_views(results@) + Seq::<Seq<char>>::empty() =~= seq_views(results@));
            }
            break;
        }
        let data_start = name_end + elen;
        if csize > n - data_start {
            // the payload region overruns the buffer: the archive is truncated
            proof {
                assert(spec_scan(buffer@, *cfg, pos as int) =~= Seq::<Seq<char>>::empty());
                assert(seq_views(results@) + Seq::<Seq<char>>::empty() =~= seq_views(results@));
            }
            break;
        }
        let data_end = data_start + csize;

        let name = slice_subrange(buffer, name_start, name_end);
        let ghost prev = results@;
        if cfg.selects(name) {
            let region = slice_subrange(buffer, data_start, data_end);
            let decoded = decode_payload(method, region);
            match decoded {
                Some(s) => results.push(s),
                None => (),
            }
        }
        proof {
            let b = buffer@;
            let p = pos as int;
            let v = spec_entry_value(b, *cfg, p);
            assert(spec_scan(b, *cfg, p) == opt_to_seq(v) + spec_scan(b, *cfg, data_end as int));
            assert(seq_views(results@) =~= seq_views(prev) + opt_to_seq(v));
            assert(seq_views(prev) + (opt_to_seq(v) + spec_scan(b, *cfg, data_end as int))
                =~= (seq_views(prev) + opt_to_seq(v)) + spec_scan(b, *cfg, data_end as int));
        }
        pos = data_end;
    }
    results
}

/// Law: a buffer without room for even one fixed-size header yields
/// nothing.
pub proof fn lemma_short_buffer_empty(b: Seq<u8>, cfg: SelectorConfig)
    requires
        b.len() <= 30,
    ensures
        spec_scan(b, cfg, 0) == Seq::<Seq<char>>::empty(),
{
}

/// Law: a buffer in which the header magic occurs nowhere yields
/// nothing, from any cursor position; the linear re-synchronization runs
/// off the end of the buffer without collecting anything.
pub proof fn lemma_no_magic_empty(b: Seq<u8>, cfg: SelectorConfig, pos: int)
    requires
        0 <= pos <= b.len(),
        forall|i: int| 0 <= i && i + 4 <= b.len() ==> !magic_at(b, i),
    ensures
        spec_scan(b, cfg, pos) == Seq::<Seq<char>>::empty(),
    decreases b.len() - pos,
{
    if pos + 30 < b.len() {
        assert(!magic_at(b, pos));
        lemma_no_magic_empty(b, cfg, pos + 1);
    }
}

/// Law (truncation): when the entry at `pos` declares a name or payload
/// region that overruns the buffer, the scan stops there with nothing
/// collected from `pos` on.
pub proof fn lemma_truncated_entry_stops(b: Seq<u8>, cfg: SelectorConfig, pos: int)
    requires
        0 <= pos,
        pos + 30 < b.len(),
        magic_at(b, pos),
        name_end_at(b, pos) > b.len() || data_end_at(b, pos) > b.len(),
    ensures
        spec_scan(b, cfg, pos) == Seq::<Seq<char>>::empty(),
{
}

/// Law (ordering): an entry whose declared regions lie within the buffer
/// contributes its value, if any, before everything collected after its
/// payload — so the values of consecutive entries appear in buffer
/// order.
pub proof fn lemma_entry_step(b: Seq<u8>, cfg: SelectorConfig, pos: int)
    requires
        0 <= pos,
        pos + 30 < b.len(),
        magic_at(b, pos),
        name_end_at(b, pos) <= b.len(),
        data_end_at(b, pos) <= b.len(),
    ensures
        spec_scan(b, cfg, pos) == opt_to_seq(spec_entry_value(b, cfg, pos)) + spec_scan(
            b,
            cfg,
            data_end_at(b, pos),
        ),
{
}

/// Law (selector exclusion): an entry whose name the policy rejects
/// contributes nothing; the scan resumes right after its payload, and by
/// construction of `spec_entry_value` the payload's content is never
/// consulted.
pub proof fn lemma_unselected_entry_skipped(b: Seq<u8>, cfg: SelectorConfig, pos: int)
    requires
        0 <= pos,
        pos + 30 < b.len(),
        magic_at(b, pos),
        name_end_at(b, pos) <= b.len(),
        data_end_at(b, pos) <= b.len(),
        !cfg.spec_selects(entry_name_at(b, pos)),
    ensures
        spec_scan(b, cfg, pos) == spec_scan(b, cfg, data_end_at(b, pos)),
{
    lemma_entry_step(b, cfg, pos);
    assert(Seq::<Seq<char>>::empty() + spec_scan(b, cfg, data_end_at(b, pos)) =~= spec_scan(
        b,
        cfg,
        data_end_at(b, pos),
    ));
}

/// Law (resilience): a qualifying entry whose DEFLATE stream is corrupt
/// contributes nothing, and the scan carries on after its payload — one
/// malformed entry never aborts the scan.
pub proof fn lemma_corrupt_entry_skipped(b: Seq<u8>, cfg: SelectorConfig, pos: int)
    requires
        0 <= pos,
        pos + 30 < b.len(),
        magic_at(b, pos),
        name_end_at(b, pos) <= b.len(),
        data_end_at(b, pos) <= b.len(),
        method_at(b, pos) == METHOD_DEFLATE as int,
        inflate_of(payload_region_at(b, pos)) is None,
    ensures
        spec_scan(b, cfg, pos) == spec_scan(b, cfg, data_end_at(b, pos)),
{
    lemma_entry_step(b, cfg, pos);
    assert(Seq::<Seq<char>>::empty() + spec_scan(b, cfg, data_end_at(b, pos)) =~= spec_scan(
        b,
        cfg,
        data_end_at(b, pos),
    ));
}

/// Law (idempotence): the scan is a function of the buffer and the
/// policy alone, so two runs over the same input collect the same values
/// in the same order.
pub proof fn lemma_scan_deterministic(
    b: Seq<u8>,
    cfg: SelectorConfig,
    r1: Seq<Seq<char>>,
    r2: Seq<Seq<char>>,
)
    requires
        r1 == spec_scan(b, cfg, 0),
        r2 == spec_scan(b, cfg, 0),
    ensures
        r1 == r2,
{
}

} // verus!
