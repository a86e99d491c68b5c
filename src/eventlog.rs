use vstd::prelude::*;

use crate::bytes::{copy_range, fits, get_u16, get_u32, get_u8, le16, le32};
use crate::error::{CcError, ParseError};
use crate::tcg::{
    digests_view, events_view, TcgDigest, TcgDigestView, TcgEfiSpecIdEvent,
    TcgEfiSpecIdEventAlgorithmSize, TcgEfiSpecIdEventView, TcgImrEvent, TcgImrEventView,
    TcgPcClientImrEvent, TcgPcClientImrEventView, EV_NO_ACTION,
};

verus! {

/// IMR index that marks the end of the records in a log buffer.
pub const EVENT_LOG_END_IMR: u32 = 0xFFFF_FFFF;

/// Width of the SHA-1 digest field of the Spec-ID record.
pub const SPEC_ID_DIGEST_LEN: usize = 20;

// ---------------------------------------------------------------------------
// The log's grammar, as spec functions over the raw bytes.
// ---------------------------------------------------------------------------

/// Digest size declared for `algo_id` by the first matching entry at or after `i`.
pub open spec fn declared_size_from(
    sizes: Seq<TcgEfiSpecIdEventAlgorithmSize>,
    algo_id: u16,
    i: int,
) -> Option<u16>
    decreases sizes.len() - i,
{
    if 0 <= i < sizes.len() {
        if sizes[i].algo_id == algo_id {
            Some(sizes[i].digest_size)
        } else {
            declared_size_from(sizes, algo_id, i + 1)
        }
    } else {
        None
    }
}

/// Digest size that a Spec-ID table declares for `algo_id`.
pub open spec fn declared_size(sizes: Seq<TcgEfiSpecIdEventAlgorithmSize>, algo_id: u16) -> Option<
    u16,
> {
    declared_size_from(sizes, algo_id, 0)
}

/// One `(algorithm id, digest)` entry at `pos`, and the offset after it.
pub open spec fn digest_at(
    b: Seq<u8>,
    pos: int,
    sizes: Seq<TcgEfiSpecIdEventAlgorithmSize>,
) -> Result<(TcgDigestView, int), ParseError> {
    if !fits(b, pos, 2) {
        Err(ParseError::Truncated)
    } else {
        let id = le16(b, pos) as u16;
        match declared_size(sizes, id) {
            None => Err(ParseError::UnknownAlgorithmInLog),
            Some(n) => {
                if !fits(b, pos + 2, n as int) {
                    Err(ParseError::Truncated)
                } else {
                    Ok((TcgDigestView { algo_id: id, hash: b.subrange(pos + 2, pos + 2 + n) }, pos + 2 + n))
                }
            },
        }
    }
}

/// `count` consecutive digest entries starting at `pos`, and the offset after them.
pub open spec fn digests_at(
    b: Seq<u8>,
    pos: int,
    count: nat,
    sizes: Seq<TcgEfiSpecIdEventAlgorithmSize>,
) -> Result<(Seq<TcgDigestView>, int), ParseError>
    decreases count,
{
    if count == 0 {
        Ok((Seq::empty(), pos))
    } else {
        match digest_at(b, pos, sizes) {
            Err(e) => Err(e),
            Ok((d, next)) => match digests_at(b, next, (count - 1) as nat, sizes) {
                Err(e) => Err(e),
                Ok((ds, end)) => Ok((seq![d] + ds, end)),
            },
        }
    }
}

/// The `TCG_PCR_EVENT2` record at `pos`, and the offset after it.
pub open spec fn imr_event_at(
    b: Seq<u8>,
    pos: int,
    sizes: Seq<TcgEfiSpecIdEventAlgorithmSize>,
) -> Result<(TcgImrEventView, int), ParseError> {
    if !fits(b, pos, 12) {
        Err(ParseError::Truncated)
    } else {
        match digests_at(b, pos + 12, le32(b, pos + 8) as nat, sizes) {
            Err(e) => Err(e),
            Ok((ds, p)) => {
                if !fits(b, p, 4) {
                    Err(ParseError::Truncated)
                } else {
                    let size = le32(b, p);
                    if !fits(b, p + 4, size) {
                        Err(ParseError::Truncated)
                    } else {
                        Ok(
                            (
                                TcgImrEventView {
                                    imr_index: le32(b, pos) as u32,
                                    event_type: le32(b, pos + 4) as u32,
                                    digests: ds,
                                    event_size: size as u32,
                                    event: b.subrange(p + 4, p + 4 + size),
                                },
                                p + 4 + size,
                            ),
                        )
                    }
                }
            },
        }
    }
}

/// The events from `pos` up to the end of the buffer or the end marker.
pub open spec fn events_from(
    b: Seq<u8>,
    pos: int,
    sizes: Seq<TcgEfiSpecIdEventAlgorithmSize>,
) -> Result<Seq<TcgImrEventView>, ParseError>
    decreases b.len() - pos,
{
    if pos < 0 || pos >= b.len() {
        Ok(Seq::empty())
    } else if !fits(b, pos, 8) {
        Err(ParseError::Truncated)
    } else if le32(b, pos) == EVENT_LOG_END_IMR as int {
        Ok(Seq::empty())
    } else {
        match imr_event_at(b, pos, sizes) {
            Err(e) => Err(e),
            Ok((ev, next)) => {
                if next <= pos || next > b.len() {
                    Err(ParseError::Truncated)
                } else {
                    match events_from(b, next, sizes) {
                        Err(e) => Err(e),
                        Ok(rest) => Ok(seq![ev] + rest),
                    }
                }
            },
        }
    }
}

/// The `n` algorithm-size pairs stored from `at`.
pub open spec fn alg_sizes(e: Seq<u8>, at: int, n: nat) -> Seq<TcgEfiSpecIdEventAlgorithmSize> {
    Seq::new(
        n,
        |i: int|
            TcgEfiSpecIdEventAlgorithmSize {
                algo_id: le16(e, at + 4 * i) as u16,
                digest_size: le16(e, at + 4 * i + 2) as u16,
            },
    )
}

/// The `TCG_EfiSpecIDEventStruct` held in a Spec-ID record's event bytes `e`.
pub open spec fn spec_id_struct(e: Seq<u8>) -> Result<TcgEfiSpecIdEventView, ParseError> {
    if !fits(e, 0, 28) {
        Err(ParseError::Truncated)
    } else {
        let n = le32(e, 24);
        let vpos = 28 + 4 * n;
        if !fits(e, 28, 4 * n + 1) {
            Err(ParseError::Truncated)
        } else {
            let vsize = e[vpos] as int;
            if !fits(e, vpos + 1, vsize) {
                Err(ParseError::Truncated)
            } else {
                Ok(
                    TcgEfiSpecIdEventView {
                        signature: e.subrange(0, 16),
                        platform_class: le32(e, 16) as u32,
                        spec_version_minor: e[20],
                        spec_version_major: e[21],
                        spec_errata: e[22],
                        uintn_size: e[23],
                        number_of_algorithms: n as u32,
                        digest_sizes: alg_sizes(e, 28, n as nat),
                        vendor_info_size: e[vpos],
                        vendor_info: e.subrange(vpos + 1, vpos + 1 + vsize),
                    },
                )
            }
        }
    }
}

/// The Spec-ID record that opens `b`, its structure, and the offset after it.
pub open spec fn spec_id_record(b: Seq<u8>) -> Result<
    (TcgPcClientImrEventView, TcgEfiSpecIdEventView, int),
    ParseError,
> {
    if !fits(b, 0, 8) {
        Err(ParseError::Truncated)
    } else if le32(b, 4) != EV_NO_ACTION as int {
        Err(ParseError::MissingSpecId)
    } else if !fits(b, 0, 32) {
        Err(ParseError::Truncated)
    } else {
        let size = le32(b, 28);
        if !fits(b, 32, size) {
            Err(ParseError::Truncated)
        } else {
            let body = b.subrange(32, 32 + size);
            match spec_id_struct(body) {
                Err(e) => Err(e),
                Ok(s) => Ok(
                    (
                        TcgPcClientImrEventView {
                            imr_index: le32(b, 0) as u32,
                            event_type: le32(b, 4) as u32,
                            digest: b.subrange(8, 28),
                            event_size: size as u32,
                            event: body,
                        },
                        s,
                        32 + size,
                    ),
                ),
            }
        }
    }
}

/// A whole decoded log: its Spec-ID record (absent when the buffer starts with the
/// end marker) and its measurement events in log order.
pub open spec fn parse_log(b: Seq<u8>) -> Result<
    (Option<(TcgPcClientImrEventView, TcgEfiSpecIdEventView)>, Seq<TcgImrEventView>),
    ParseError,
> {
    if b.len() == 0 {
        Err(ParseError::EmptyLog)
    } else if !fits(b, 0, 8) {
        Err(ParseError::Truncated)
    } else if le32(b, 0) == EVENT_LOG_END_IMR as int {
        Ok((None, Seq::empty()))
    } else {
        match spec_id_record(b) {
            Err(e) => Err(e),
            Ok((h, s, next)) => match events_from(b, next, s.digest_sizes) {
                Err(e) => Err(e),
                Ok(evs) => Ok((Some((h, s)), evs)),
            },
        }
    }
}

// ---------------------------------------------------------------------------
// Accumulators used by the loop invariants.
// ---------------------------------------------------------------------------

/// `acc` followed by the digests of `r`, if `r` succeeded.
pub open spec fn after_digests(
    acc: Seq<TcgDigestView>,
    r: Result<(Seq<TcgDigestView>, int), ParseError>,
) -> Result<(Seq<TcgDigestView>, int), ParseError> {
    match r {
        Ok((ds, end)) => Ok((acc + ds, end)),
        Err(e) => Err(e),
    }
}

/// `acc` followed by the events of `r`, if `r` succeeded.
pub open spec fn after_events(
    acc: Seq<TcgImrEventView>,
    r: Result<Seq<TcgImrEventView>, ParseError>,
) -> Result<Seq<TcgImrEventView>, ParseError> {
    match r {
        Ok(rest) => Ok(acc + rest),
        Err(e) => Err(e),
    }
}

proof fn lemma_after_digests_push(
    acc: Seq<TcgDigestView>,
    d: TcgDigestView,
    r: Result<(Seq<TcgDigestView>, int), ParseError>,
)
    ensures
        after_digests(
            acc,
            match r {
                Err(e) => Err(e),
                Ok((ds, end)) => Ok((seq![d] + ds, end)),
            },
        ) == after_digests(acc.push(d), r),
{
    match r {
        Err(e) => {},
        Ok((ds, end)) => {
            assert(acc + (seq![d] + ds) =~= acc.push(d) + ds);
        },
    }
}

proof fn lemma_after_events_push(
    acc: Seq<TcgImrEventView>,
    ev: TcgImrEventView,
    r: Result<Seq<TcgImrEventView>, ParseError>,
)
    ensures
        after_events(
            acc,
            match r {
                Err(e) => Err(e),
                Ok(rest) => Ok(seq![ev] + rest),
            },
        ) == after_events(acc.push(ev), r),
{
    match r {
        Err(e) => {},
        Ok(rest) => {
            assert(acc + (seq![ev] + rest) =~= acc.push(ev) + rest);
        },
    }
}

/// A successful run of digest entries never ends before it starts.
proof fn lemma_digests_advance(
    b: Seq<u8>,
    pos: int,
    count: nat,
    sizes: Seq<TcgEfiSpecIdEventAlgorithmSize>,
)
    requires
        0 <= pos <= b.len(),
    ensures
        digests_at(b, pos, count, sizes) matches Ok((_, end)) ==> pos <= end <= b.len(),
    decreases count,
{
    if count > 0 {
        if let Ok((_, next)) = digest_at(b, pos, sizes) {
            lemma_digests_advance(b, next, (count - 1) as nat, sizes);
        }
    }
}

/// A successful event record is at least 16 bytes long and lies inside the buffer.
proof fn lemma_imr_event_advance(b: Seq<u8>, pos: int, sizes: Seq<TcgEfiSpecIdEventAlgorithmSize>)
    requires
        0 <= pos <= b.len(),
    ensures
        imr_event_at(b, pos, sizes) matches Ok((_, next)) ==> pos + 16 <= next <= b.len(),
{
    if fits(b, pos, 12) {
        lemma_digests_advance(b, pos + 12, le32(b, pos + 8) as nat, sizes);
    }
}

/// Every digest in `ds` has the length that `sizes` declares for its algorithm.
pub open spec fn digests_conform(
    ds: Seq<TcgDigestView>,
    sizes: Seq<TcgEfiSpecIdEventAlgorithmSize>,
) -> bool {
    forall|i: int|
        0 <= i < ds.len() ==> (declared_size(sizes, #[trigger] ds[i].algo_id) matches Some(n)
            && ds[i].hash.len() == n)
}

/// Every digest of every event in `evs` has its declared length.
pub open spec fn events_conform(
    evs: Seq<TcgImrEventView>,
    sizes: Seq<TcgEfiSpecIdEventAlgorithmSize>,
) -> bool {
    forall|i: int| 0 <= i < evs.len() ==> digests_conform(#[trigger] evs[i].digests, sizes)
}

proof fn lemma_digests_conform(
    b: Seq<u8>,
    pos: int,
    count: nat,
    sizes: Seq<TcgEfiSpecIdEventAlgorithmSize>,
)
    ensures
        digests_at(b, pos, count, sizes) matches Ok((ds, _)) ==> digests_conform(ds, sizes),
    decreases count,
{
    if count > 0 {
        if let Ok((d, next)) = digest_at(b, pos, sizes) {
            lemma_digests_conform(b, next, (count - 1) as nat, sizes);
            if let Ok((ds, end)) = digests_at(b, next, (count - 1) as nat, sizes) {
                let all = seq![d] + ds;
                assert forall|i: int| 0 <= i < all.len() implies (declared_size(
                    sizes,
                    #[trigger] all[i].algo_id,
                ) matches Some(n) && all[i].hash.len() == n) by {
                    if i > 0 {
                        assert(all[i] == ds[i - 1]);
                    }
                }
            }
        }
    }
}

proof fn lemma_events_conform(b: Seq<u8>, pos: int, sizes: Seq<TcgEfiSpecIdEventAlgorithmSize>)
    ensures
        events_from(b, pos, sizes) matches Ok(evs) ==> events_conform(evs, sizes),
    decreases b.len() - pos,
{
    if 0 <= pos < b.len() && fits(b, pos, 8) && le32(b, pos) != EVENT_LOG_END_IMR as int {
        if let Ok((ev, next)) = imr_event_at(b, pos, sizes) {
            lemma_digests_conform(b, pos + 12, le32(b, pos + 8) as nat, sizes);
            if pos < next <= b.len() {
                lemma_events_conform(b, next, sizes);
                if let Ok(rest) = events_from(b, next, sizes) {
                    let all = seq![ev] + rest;
                    assert forall|i: int| 0 <= i < all.len() implies digests_conform(
                        #[trigger] all[i].digests,
                        sizes,
                    ) by {
                        if i > 0 {
                            assert(all[i] == rest[i - 1]);
                        }
                    }
                }
            }
        }
    }
}

/// Each digest of each decoded event is exactly as long as the log's Spec-ID
/// record declares for the digest's algorithm.
pub proof fn lemma_log_digest_sizes(b: Seq<u8>)
    ensures
        parse_log(b) matches Ok((Some((_, s)), evs)) ==> events_conform(evs, s.digest_sizes),
{
    if let Ok((h, s, next)) = spec_id_record(b) {
        lemma_events_conform(b, next, s.digest_sizes);
    }
}

/// An event whose first digest names an algorithm that the Spec-ID table does not
/// declare is rejected with `UnknownAlgorithmInLog`: no default size is assumed.
pub proof fn lemma_unknown_algorithm_rejected(
    b: Seq<u8>,
    pos: int,
    sizes: Seq<TcgEfiSpecIdEventAlgorithmSize>,
)
    requires
        fits(b, pos, 14),
        le32(b, pos + 8) >= 1,
        declared_size(sizes, le16(b, pos + 12) as u16) is None,
    ensures
        imr_event_at(b, pos, sizes) == Err::<(TcgImrEventView, int), ParseError>(
            ParseError::UnknownAlgorithmInLog,
        ),
{
}

/// Selection boundaries: with no bounds every event is selected in log order; a
/// start at or past the event count is out of range; a start below the count with
/// a count between 1 and one less than the event count that stays inside the log
/// selects exactly `[start, start + count)`.
pub proof fn lemma_select_boundaries(total: nat, start: u32, count: u32)
    ensures
        select_range(total, None, None) == Some((0int, total as int)),
        start >= total ==> select_range(total, Some(start), Some(count)) is None,
        start >= total ==> select_range(total, Some(start), None) is None,
        start < total && 0 < count < total && start + count <= total ==> select_range(
            total,
            Some(start),
            Some(count),
        ) == Some((start as int, start + count)),
{
}

// ---------------------------------------------------------------------------
// Executable decoding.
// ---------------------------------------------------------------------------

/// Looks up the digest size that `sizes` declares for `algo_id`.
pub fn find_digest_size(sizes: &[TcgEfiSpecIdEventAlgorithmSize], algo_id: u16) -> (r: Option<u16>)
    ensures
        r == declared_size(sizes@, algo_id),
{
    let mut i: usize = 0;
    while i < sizes.len()
        invariant
            i <= sizes@.len(),
            declared_size(sizes@, algo_id) == declared_size_from(sizes@, algo_id, i as int),
        decreases sizes@.len() - i,
    {
        if sizes[i].algo_id == algo_id {
            return Some(sizes[i].digest_size);
        }
        i += 1;
    }
    None
}

/// Decodes the `TCG_PCR_EVENT2` record at `pos`, returning it and the offset after it.
pub fn parse_event_record(data: &[u8], pos: usize, sizes: &[TcgEfiSpecIdEventAlgorithmSize]) -> (r:
    Result<(TcgImrEvent, usize), CcError>)
    requires
        pos <= data@.len(),
    ensures
        match imr_event_at(data@, pos as int, sizes@) {
            Ok((v, next)) => r matches Ok((ev, n)) && ev@ == v && n == next,
            Err(e) => r matches Err(err) && err == CcError::Parse(e),
        },
{
    let len = data.len();
    if len - pos < 12 {
        return Err(CcError::Parse(ParseError::Truncated));
    }
    let imr_index = get_u32(data, pos);
    let event_type = get_u32(data, pos + 4);
    let digest_count = get_u32(data, pos + 8);
    let ghost b = data@;
    let ghost all = digests_at(b, pos + 12, digest_count as nat, sizes@);
    assert(all == digests_at(b, pos + 12, le32(b, pos + 8) as nat, sizes@));
    let mut p: usize = pos + 12;
    let mut digests: Vec<TcgDigest> = Vec::new();
    let mut i: u32 = 0;
    while i < digest_count
        invariant
            len == b.len(),
            b == data@,
            pos + 12 <= p <= len,
            all == digests_at(b, pos + 12, le32(b, pos + 8) as nat, sizes@),
            le32(b, pos as int) == imr_index as int,
            le32(b, pos + 4) == event_type as int,
            i <= digest_count,
            all == after_digests(
                digests_view(digests@),
                digests_at(b, p as int, (digest_count - i) as nat, sizes@),
            ),
        decreases digest_count - i,
    {
        let ghost rest = digests_at(b, p as int, (digest_count - i) as nat, sizes@);
        if len - p < 2 {
            assert(rest == Err::<(Seq<TcgDigestView>, int), ParseError>(ParseError::Truncated));
            return Err(CcError::Parse(ParseError::Truncated));
        }
        let algo_id = get_u16(data, p);
        assert(le16(b, p as int) as u16 == algo_id);
        let size = match find_digest_size(sizes, algo_id) {
            Some(n) => n as usize,
            None => {
                assert(rest == Err::<(Seq<TcgDigestView>, int), ParseError>(
                    ParseError::UnknownAlgorithmInLog,
                ));
                return Err(CcError::Parse(ParseError::UnknownAlgorithmInLog));
            },
        };
        if size > len - p - 2 {
            assert(rest == Err::<(Seq<TcgDigestView>, int), ParseError>(ParseError::Truncated));
            return Err(CcError::Parse(ParseError::Truncated));
        }
        let hash = copy_range(data, p + 2, size);
        let d = TcgDigest { algo_id, hash };
        proof {
            lemma_after_digests_push(
                digests_view(digests@),
                d@,
                digests_at(b, p + 2 + size, (digest_count - i - 1) as nat, sizes@),
            );
        }
        let ghost prev = digests@;
        let ghost dv = d@;
        digests.push(d);
        assert(digests_view(digests@) =~= digests_view(prev).push(dv));
        p = p + 2 + size;
        i += 1;
    }
    assert(digests_view(digests@) + Seq::empty() =~= digests_view(digests@));
    if len - p < 4 {
        return Err(CcError::Parse(ParseError::Truncated));
    }
    let event_size = get_u32(data, p);
    if event_size as usize > len - p - 4 {
        return Err(CcError::Parse(ParseError::Truncated));
    }
    let event = copy_range(data, p + 4, event_size as usize);
    let next = p + 4 + event_size as usize;
    Ok((TcgImrEvent { imr_index, event_type, digests, event_size, event }, next))
}

/// Decodes the `TCG_EfiSpecIDEventStruct` held in a Spec-ID record's event bytes.
pub fn parse_spec_id_struct(e: &[u8]) -> (r: Result<TcgEfiSpecIdEvent, CcError>)
    ensures
        match spec_id_struct(e@) {
            Ok(v) => r matches Ok(s) && s@ == v,
            Err(err) => r matches Err(x) && x == CcError::Parse(err),
        },
{
    let len = e.len();
    if len < 28 {
        return Err(CcError::Parse(ParseError::Truncated));
    }
    let signature = copy_range(e, 0, 16);
    let platform_class = get_u32(e, 16);
    let spec_version_minor = get_u8(e, 20);
    let spec_version_major = get_u8(e, 21);
    let spec_errata = get_u8(e, 22);
    let uintn_size = get_u8(e, 23);
    let number_of_algorithms = get_u32(e, 24);
    if number_of_algorithms as u64 * 4 + 1 > (len - 28) as u64 {
        return Err(CcError::Parse(ParseError::Truncated));
    }
    let n = number_of_algorithms as usize;
    let mut digest_sizes: Vec<TcgEfiSpecIdEventAlgorithmSize> = Vec::new();
    let mut i: usize = 0;
    while i < n
        invariant
            len == e@.len(),
            n == number_of_algorithms,
            28 + 4 * n + 1 <= len,
            i <= n,
            digest_sizes@.len() == i,
            forall|j: int|
                0 <= j < i ==> #[trigger] digest_sizes@[j] == alg_sizes(e@, 28, n as nat)[j],
        decreases n - i,
    {
        let algo_id = get_u16(e, 28 + 4 * i);
        let digest_size = get_u16(e, 28 + 4 * i + 2);
        digest_sizes.push(TcgEfiSpecIdEventAlgorithmSize { algo_id, digest_size });
        i += 1;
    }
    assert(digest_sizes@ =~= alg_sizes(e@, 28, n as nat));
    let vpos = 28 + 4 * n;
    let vendor_info_size = get_u8(e, vpos);
    if vendor_info_size as usize > len - vpos - 1 {
        return Err(CcError::Parse(ParseError::Truncated));
    }
    let vendor_info = copy_range(e, vpos + 1, vendor_info_size as usize);
    Ok(
        TcgEfiSpecIdEvent {
            signature,
            platform_class,
            spec_version_minor,
            spec_version_major,
            spec_errata,
            uintn_size,
            number_of_algorithms,
            digest_sizes,
            vendor_info_size,
            vendor_info,
        },
    )
}

/// A raw TCG event log and what has been decoded from it.
pub struct TcgEventLog {
    /// The Spec-ID record, once decoded.
    pub spec_id_header: Option<TcgPcClientImrEvent>,
    /// The Spec-ID structure inside that record, once decoded.
    pub spec_id_header_event: Option<TcgEfiSpecIdEvent>,
    /// The raw log bytes.
    pub data: Vec<u8>,
    /// The measurement events, in log order.
    pub event_logs: Vec<TcgImrEvent>,
    /// Number of measurement events.
    pub count: usize,
}

/// Views of the two Spec-ID parts, present only when both are.
pub open spec fn spec_id_view(h: Option<TcgPcClientImrEvent>, s: Option<TcgEfiSpecIdEvent>) -> Option<
    (TcgPcClientImrEventView, TcgEfiSpecIdEventView),
> {
    match (h, s) {
        (Some(h), Some(s)) => Some((h@, s@)),
        _ => None,
    }
}

/// The half-open range `[begin, end)` of events that `select` returns, or `None`
/// when the request is out of range.
pub open spec fn select_range(total: nat, start: Option<u32>, count: Option<u32>) -> Option<
    (int, int),
> {
    let begin: int = match start {
        Some(s) => s as int,
        None => 0,
    };
    if start matches Some(s) && s >= total {
        None
    } else {
        match count {
            None => Some((begin, total as int)),
            Some(c) => {
                if c == 0 || c >= total || begin + c > total {
                    None
                } else {
                    Some((begin, begin + c))
                }
            },
        }
    }
}

impl TcgEventLog {
    /// Whether `count` agrees with the decoded events.
    pub open spec fn wf(&self) -> bool {
        self.count == self.event_logs@.len()
    }

    /// The Spec-ID record and structure, if both are decoded.
    pub open spec fn header_view(&self) -> Option<(TcgPcClientImrEventView, TcgEfiSpecIdEventView)> {
        spec_id_view(self.spec_id_header, self.spec_id_header_event)
    }

    /// A log over `data` with nothing decoded yet.
    pub fn new(data: Vec<u8>) -> (r: TcgEventLog)
        ensures
            r.wf(),
            r.data@ == data@,
            r.event_logs@.len() == 0,
            r.header_view() is None,
    {
        TcgEventLog {
            spec_id_header: None,
            spec_id_header_event: None,
            data,
            event_logs: Vec::new(),
            count: 0,
        }
    }

    /// Decodes the Spec-ID record at the start of `data`: the record, its structure
    /// and the offset of the first measurement event.
    pub fn parse_spec_id_event_log(data: &[u8]) -> (r: Result<
        (TcgPcClientImrEvent, TcgEfiSpecIdEvent, usize),
        CcError,
    >)
        ensures
            match spec_id_record(data@) {
                Ok((h, s, next)) => r matches Ok((hh, ss, n)) && hh@ == h && ss@ == s && n == next,
                Err(e) => r matches Err(x) && x == CcError::Parse(e),
            },
    {
        let len = data.len();
        if len < 8 {
            return Err(CcError::Parse(ParseError::Truncated));
        }
        let imr_index = get_u32(data, 0);
        let event_type = get_u32(data, 4);
        if event_type != EV_NO_ACTION {
            return Err(CcError::Parse(ParseError::MissingSpecId));
        }
        if len < 32 {
            return Err(CcError::Parse(ParseError::Truncated));
        }
        let event_size = get_u32(data, 28);
        if event_size as usize > len - 32 {
            return Err(CcError::Parse(ParseError::Truncated));
        }
        let digest = copy_range(data, 8, SPEC_ID_DIGEST_LEN);
        let event = copy_range(data, 32, event_size as usize);
        let spec_id = match parse_spec_id_struct(event.as_slice()) {
            Ok(s) => s,
            Err(e) => {
                return Err(e);
            },
        };
        let header = TcgPcClientImrEvent { imr_index, event_type, digest, event_size, event };
        Ok((header, spec_id, 32 + event_size as usize))
    }

    /// Decodes the `TCG_PCR_EVENT2` record at `pos`, with the digest sizes that the
    /// log's Spec-ID record declares.
    pub fn parse_event_log(
        data: &[u8],
        pos: usize,
        sizes: &[TcgEfiSpecIdEventAlgorithmSize],
    ) -> (r: Result<(TcgImrEvent, usize), CcError>)
        requires
            pos <= data@.len(),
        ensures
            match imr_event_at(data@, pos as int, sizes@) {
                Ok((v, next)) => r matches Ok((ev, n)) && ev@ == v && n == next,
                Err(e) => r matches Err(err) && err == CcError::Parse(e),
            },
    {
        parse_event_record(data, pos, sizes)
    }

    /// Decodes the whole log from its first byte. On success the Spec-ID parts and
    /// the events are those of `parse_log`; on failure nothing changes.
    pub fn parse(&mut self) -> (r: Result<(), CcError>)
        ensures
            match parse_log(old(self).data@) {
                Ok((hdr, evs)) => {
                    &&& r is Ok
                    &&& final(self).wf()
                    &&& final(self).data@ == old(self).data@
                    &&& final(self).header_view() == hdr
                    &&& events_view(final(self).event_logs@) == evs
                },
                Err(e) => r == Err::<(), CcError>(CcError::Parse(e)) && *final(self) == *old(self),
            },
    {
        let d = self.data.as_slice();
        let ghost b = d@;
        let len = d.len();
        if len == 0 {
            return Err(CcError::Parse(ParseError::EmptyLog));
        }
        if len < 8 {
            return Err(CcError::Parse(ParseError::Truncated));
        }
        if get_u32(d, 0) == EVENT_LOG_END_IMR {
            self.spec_id_header = None;
            self.spec_id_header_event = None;
            self.event_logs = Vec::new();
            self.count = 0;
            return Ok(());
        }
        let (header, spec_id, next) = match Self::parse_spec_id_event_log(d) {
            Ok(t) => t,
            Err(e) => {
                return Err(e);
            },
        };
        let sizes = spec_id.digest_sizes.as_slice();
        let ghost all = events_from(b, next as int, sizes@);
        let mut events: Vec<TcgImrEvent> = Vec::new();
        let mut pos: usize = next;
        assert(events_view(events@) + Seq::empty() =~= Seq::<TcgImrEventView>::empty());
        while pos < len
            invariant
                b == d@,
                *self == *old(self),
                b == old(self).data@,
                len == b.len(),
                len >= 8,
                le32(b, 0) != EVENT_LOG_END_IMR as int,
                spec_id_record(b) == Ok::<
                    (TcgPcClientImrEventView, TcgEfiSpecIdEventView, int),
                    ParseError,
                >((header@, spec_id@, next as int)),
                next <= pos <= len,
                sizes@ == spec_id.digest_sizes@,
                all == events_from(b, next as int, sizes@),
                all == after_events(events_view(events@), events_from(b, pos as int, sizes@)),
            decreases len - pos,
        {
            if len - pos < 8 {
                return Err(CcError::Parse(ParseError::Truncated));
            }
            if get_u32(d, pos) == EVENT_LOG_END_IMR {
                pos = len;
            } else {
                proof {
                    lemma_imr_event_advance(b, pos as int, sizes@);
                }
                match Self::parse_event_log(d, pos, sizes) {
                    Err(e) => {
                        return Err(e);
                    },
                    Ok((ev, n)) => {
                        let ghost rest = events_from(b, n as int, sizes@);
                        proof {
                            lemma_after_events_push(events_view(events@), ev@, rest);
                        }
                        let ghost prev = events@;
                        let ghost evv = ev@;
                        events.push(ev);
                        assert(events_view(events@) =~= events_view(prev).push(evv));
                        pos = n;
                    },
                }
            }
        }
        assert(events_view(events@) + Seq::empty() =~= events_view(events@));
        let count = events.len();
        self.spec_id_header = Some(header);
        self.spec_id_header_event = Some(spec_id);
        self.event_logs = events;
        self.count = count;
        Ok(())
    }

    /// The decoded events `[start, start + count)`; `start` defaults to the first
    /// event and `count` to the rest of the log. Fails with `Range` when `start` is
    /// not below the event count, when `count` is zero or not below the event count,
    /// or when the range runs past the last event.
    pub fn select(&self, start: Option<u32>, count: Option<u32>) -> (r: Result<
        Vec<TcgImrEvent>,
        CcError,
    >)
        requires
            self.wf(),
        ensures
            match select_range(self.event_logs@.len(), start, count) {
                Some((b, e)) => r matches Ok(v) && events_view(v@) == events_view(
                    self.event_logs@,
                ).subrange(b, e),
                None => r matches Err(x) && x == CcError::Range,
            },
    {
        let total = self.count;
        let begin: usize = match start {
            Some(s) => {
                if s as usize >= total {
                    return Err(CcError::Range);
                }
                s as usize
            },
            None => 0,
        };
        let end: usize = match count {
            Some(c) => {
                if c == 0 || c as usize >= total || c as usize > total - begin {
                    return Err(CcError::Range);
                }
                begin + c as usize
            },
            None => total,
        };
        let mut out: Vec<TcgImrEvent> = Vec::new();
        let mut i: usize = begin;
        while i < end
            invariant
                begin <= i <= end,
                end <= self.event_logs@.len(),
                out@.len() == i - begin,
                forall|j: int|
                    0 <= j < i - begin ==> #[trigger] out@[j]@ == self.event_logs@[begin + j]@,
            decreases end - i,
        {
            out.push(self.event_logs[i].duplicate());
            i += 1;
        }
        assert(events_view(out@) =~= events_view(self.event_logs@).subrange(
            begin as int,
            end as int,
        ));
        Ok(out)
    }
}

} // verus!
