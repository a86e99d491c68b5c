use vstd::prelude::*;

verus! {

/// ASCII code of the upper-case hex digit `n` (below 16).
pub open spec fn hex_digit(n: int) -> u8 {
    if n < 10 {
        (48 + n) as u8
    } else {
        (55 + n) as u8
    }
}

/// The `n` lowest hex digits of `v`, most significant first.
pub open spec fn hex_n(v: nat, n: nat) -> Seq<u8>
    decreases n,
{
    if n == 0 {
        Seq::empty()
    } else {
        hex_n(v / 16, (n - 1) as nat).push(hex_digit((v % 16) as int))
    }
}

/// Number of hex digits of `v` (at least one).
pub open spec fn hex_digits(v: nat) -> nat
    decreases v,
{
    if v < 16 {
        1
    } else {
        1 + hex_digits(v / 16)
    }
}

/// Width of an offset label: every hex digit of `v`, and at least 8.
pub open spec fn label_width(v: nat) -> nat {
    if hex_digits(v) < 8 {
        8
    } else {
        hex_digits(v)
    }
}

/// Each byte of `s` as two hex digits and a space.
pub open spec fn hex_bytes(s: Seq<u8>) -> Seq<u8>
    decreases s.len(),
{
    if s.len() == 0 {
        Seq::empty()
    } else {
        hex_bytes(s.drop_last()) + hex_n(s.last() as nat, 2) + seq![0x20u8]
    }
}

/// A byte as shown in the text column: itself when printable ASCII, else `.`.
pub open spec fn printable(b: u8) -> u8 {
    if 0x20 <= b && b <= 0x7E {
        b
    } else {
        0x2E
    }
}

/// `n` spaces.
pub open spec fn spaces(n: nat) -> Seq<u8> {
    Seq::new(n, |i: int| 0x20u8)
}

/// The bytes that line `k` of a dump shows (up to 16).
pub open spec fn line_chunk(data: Seq<u8>, k: int) -> Seq<u8> {
    let start = 16 * k;
    let end = if start + 16 <= data.len() {
        start + 16
    } else {
        data.len() as int
    };
    data.subrange(start, end)
}

/// Line `k` of a dump: the offset in hex (every digit, at least 8), a space, each byte as hex and
/// a space, padding for a short last line, a space, then the text column.
pub open spec fn dump_line(data: Seq<u8>, k: int) -> Seq<u8> {
    let c = line_chunk(data, k);
    hex_n((16 * k) as nat, label_width((16 * k) as nat)) + seq![0x20u8] + hex_bytes(c) + spaces((3 * (16 - c.len())) as nat)
        + seq![0x20u8] + c.map_values(|b: u8| printable(b))
}

/// All lines of the dump of `data`, one per 16 bytes.
pub open spec fn dump_spec(data: Seq<u8>) -> Seq<Seq<u8>> {
    Seq::new(((data.len() + 15) / 16) as nat, |k: int| dump_line(data, k))
}

/// The views of a sequence of lines.
pub open spec fn dump_lines(v: Seq<Vec<u8>>) -> Seq<Seq<u8>> {
    v.map_values(|l: Vec<u8>| l@)
}

fn hex_digit_exec(n: usize) -> (r: u8)
    requires
        n < 16,
    ensures
        r == hex_digit(n as int),
{
    if n < 10 {
        48 + n as u8
    } else {
        55 + n as u8
    }
}

fn push_hex(out: &mut Vec<u8>, v: usize, n: usize)
    ensures
        final(out)@ == old(out)@ + hex_n(v as nat, n as nat),
    decreases n,
{
    if n > 0 {
        let ghost start = out@;
        push_hex(out, v / 16, n - 1);
        out.push(hex_digit_exec(v % 16));
        assert(out@ =~= start + hex_n(v as nat, n as nat));
    } else {
        assert(out@ =~= old(out)@ + hex_n(v as nat, n as nat));
    }
}

fn label_width_exec(v: usize) -> (r: usize)
    ensures
        r as nat == label_width(v as nat),
{
    let mut w: usize = 1;
    let mut t: usize = v;
    while t >= 16
        invariant
            1 <= w,
            w + t <= v + 1,
            hex_digits(v as nat) == w - 1 + hex_digits(t as nat),
        decreases t,
    {
        t = t / 16;
        w = w + 1;
    }
    if w < 8 {
        8
    } else {
        w
    }
}

/// The offset label of a dump line: `offset` in upper-case hex, every digit and at
/// least 8.
pub fn offset_label(offset: usize) -> (r: Vec<u8>)
    ensures
        r@ == hex_n(offset as nat, label_width(offset as nat)),
{
    let mut out: Vec<u8> = Vec::new();
    let width = label_width_exec(offset);
    push_hex(&mut out, offset, width);
    assert(out@ =~= hex_n(offset as nat, label_width(offset as nat)));
    out
}

/// Line `k` of the hex dump of `data`.
pub fn dump_line_exec(data: &[u8], k: usize) -> (r: Vec<u8>)
    requires
        16 * k < data@.len(),
    ensures
        r@ == dump_line(data@, k as int),
{
    let len = data.len();
    let start = 16 * k;
    let end = if len - start >= 16 {
        start + 16
    } else {
        len
    };
    let ghost c = line_chunk(data@, k as int);
    assert(c =~= data@.subrange(start as int, end as int));
    let mut out = offset_label(start);
    out.push(0x20);
    let ghost head = out@;
    assert(head =~= hex_n((16 * k) as nat, label_width((16 * k) as nat)) + seq![0x20u8]);
    let mut i: usize = start;
    while i < end
        invariant
            len == data@.len(),
            start <= i <= end <= len,
            out@ == head + hex_bytes(data@.subrange(start as int, i as int)),
        decreases end - i,
    {
        let ghost s = data@.subrange(start as int, i as int + 1);
        assert(s.drop_last() =~= data@.subrange(start as int, i as int));
        push_hex(&mut out, data[i] as usize, 2);
        out.push(0x20);
        i += 1;
        assert(out@ =~= head + hex_bytes(data@.subrange(start as int, i as int)));
    }
    let ghost mid = out@;
    let pad = 3 * (16 - (end - start));
    let mut j: usize = 0;
    while j < pad
        invariant
            j <= pad,
            out@ == mid + spaces(j as nat),
        decreases pad - j,
    {
        out.push(0x20);
        j += 1;
        assert(out@ =~= mid + spaces(j as nat));
    }
    out.push(0x20);
    let ghost tail = out@;
    let mut m: usize = start;
    while m < end
        invariant
            len == data@.len(),
            start <= m <= end <= len,
            c == data@.subrange(start as int, end as int),
            out@.len() == tail.len() + (m - start),
            forall|x: int| 0 <= x < tail.len() ==> #[trigger] out@[x] == tail[x],
            forall|x: int|
                start <= x < m ==> #[trigger] out@[tail.len() + x - start] == printable(data@[x]),
        decreases end - m,
    {
        let b = data[m];
        let p: u8 = if 0x20 <= b && b <= 0x7E {
            b
        } else {
            0x2E
        };
        out.push(p);
        m += 1;
    }
    assert forall|x: int| 0 <= x < c.len() implies out@[tail.len() + x] == printable(c[x]) by {
        assert(out@[tail.len() + (start + x) - start] == printable(data@[start + x]));
    }
    assert(out@ =~= tail + c.map_values(|b: u8| printable(b)));
    out
}

/// The hex dump of `data`: one line per 16 bytes, as ASCII text.
pub fn dump_data(data: &[u8]) -> (r: Vec<Vec<u8>>)
    ensures
        dump_lines(r@) == dump_spec(data@),
{
    let len = data.len();
    let n = len / 16 + if len % 16 == 0 {
        0
    } else {
        1
    };
    let mut lines: Vec<Vec<u8>> = Vec::new();
    let mut k: usize = 0;
    while k < n
        invariant
            len == data@.len(),
            n == (len + 15) / 16,
            k <= n,
            lines@.len() == k,
            forall|x: int| 0 <= x < k ==> #[trigger] lines@[x]@ == dump_line(data@, x),
        decreases n - k,
    {
        lines.push(dump_line_exec(data, k));
        k += 1;
    }
    assert(dump_lines(lines@) =~= dump_spec(data@));
    lines
}

} // verus!
