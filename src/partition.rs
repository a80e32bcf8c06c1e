//! Splitting a newline-delimited wordlist into contiguous byte shards, and
//! reading the lines that belong to each shard.
//!
//! A line belongs to the shard that holds its first byte. A shard that starts
//! inside a line leaves that line to the shard before it, and a shard always
//! reads its last line to the end, even past its nominal end. So every line of
//! the file is read by exactly one shard.
use vstd::prelude::*;

verus! {

/// The byte `\n`.
pub const NEWLINE: u8 = 10;

/// The byte `\r`.
pub const CARRIAGE_RETURN: u8 = 13;

/// A half-open byte range `[start, end)` of the wordlist, owned by one worker.
#[derive(Clone, Copy, Debug, PartialEq, Eq, Structural)]
pub struct Shard {
    pub start: usize,
    pub end: usize,
}

/// First byte of shard `i` when `file_size` bytes are split among `n` workers.
pub open spec fn shard_start(file_size: nat, n: nat, i: nat) -> nat {
    i * (file_size / n)
}

/// End (exclusive) of shard `i`: the last shard absorbs the remainder.
pub open spec fn shard_end(file_size: nat, n: nat, i: nat) -> nat {
    if i + 1 == n {
        file_size
    } else {
        (i + 1) * (file_size / n)
    }
}

proof fn lemma_shard_bounds(file_size: nat, n: nat, i: nat)
    requires
        n > 0,
        i < n,
    ensures
        shard_start(file_size, n, i) <= shard_end(file_size, n, i) <= file_size,
        i + 1 < n ==> shard_end(file_size, n, i) == shard_start(file_size, n, i + 1),
{
    let q = file_size / n;
    assert(q * n <= file_size) by (nonlinear_arith)
        requires
            q == file_size / n,
            n > 0,
    ;
    assert(i * q <= (i + 1) * q <= n * q) by (nonlinear_arith)
        requires
            i < n,
    ;
}

/// Splits `file_size` bytes into `worker_count` contiguous shards of
/// `file_size / worker_count` bytes each, the last one extended to the end.
pub fn plan(file_size: usize, worker_count: usize) -> (r: Vec<Shard>)
    requires
        worker_count > 0,
    ensures
        r.len() == worker_count,
        forall|i: int|
            0 <= i < r.len() ==> {
                &&& r[i].start == shard_start(file_size as nat, worker_count as nat, i as nat)
                &&& r[i].end == shard_end(file_size as nat, worker_count as nat, i as nat)
            },
        r[0].start == 0,
        r[r.len() - 1].end == file_size,
        forall|i: int| 0 <= i < r.len() ==> r[i].start <= r[i].end,
        forall|i: int| 0 <= i < r.len() - 1 ==> r[i].end == r[i + 1].start,
{
    let size = file_size / worker_count;
    let mut shards: Vec<Shard> = Vec::with_capacity(worker_count);
    let mut i: usize = 0;
    while i < worker_count
        invariant
            i <= worker_count,
            size == file_size / worker_count,
            shards.len() == i,
            forall|k: int|
                0 <= k < i ==> {
                    &&& shards[k].start == shard_start(
                        file_size as nat,
                        worker_count as nat,
                        k as nat,
                    )
                    &&& shards[k].end == shard_end(file_size as nat, worker_count as nat, k as nat)
                },
        decreases worker_count - i,
    {
        proof {
            lemma_shard_bounds(file_size as nat, worker_count as nat, i as nat);
        }
        let start = i * size;
        let end = if i + 1 == worker_count {
            file_size
        } else {
            (i + 1) * size
        };
        shards.push(Shard { start, end });
        i += 1;
    }
    proof {
        assert forall|k: int| 0 <= k < shards.len() implies shards[k].start <= shards[k].end by {
            lemma_shard_bounds(file_size as nat, worker_count as nat, k as nat);
        }
        assert forall|k: int| 0 <= k < shards.len() - 1 implies shards[k].end == shards[k
            + 1].start by {
            lemma_shard_bounds(file_size as nat, worker_count as nat, k as nat);
        }
    }
    shards
}

/// Byte offset `p` lies in shard `i`.
pub open spec fn in_shard(file_size: nat, n: nat, i: nat, p: nat) -> bool {
    shard_start(file_size, n, i) <= p < shard_end(file_size, n, i)
}

/// The shard that holds byte offset `p`.
pub open spec fn shard_of(file_size: nat, n: nat, p: nat) -> nat {
    let q = file_size / n;
    if q == 0 || p / q >= n - 1 {
        (n - 1) as nat
    } else {
        p / q
    }
}

/// Shards cover the file: every byte offset below `file_size` lies in exactly
/// one shard of a plan for `n` workers, and the shards are contiguous from 0
/// to `file_size`.
pub proof fn lemma_plan_covers_file(file_size: nat, n: nat)
    requires
        n > 0,
    ensures
        shard_start(file_size, n, 0) == 0,
        shard_end(file_size, n, (n - 1) as nat) == file_size,
        forall|i: nat|
            i + 1 < n ==> #[trigger] shard_end(file_size, n, i) == shard_start(file_size, n, i + 1),
        forall|p: nat|
            p < file_size ==> #[trigger] shard_of(file_size, n, p) < n && in_shard(
                file_size,
                n,
                shard_of(file_size, n, p),
                p,
            ),
        forall|p: nat, i: nat, j: nat|
            i < n && j < n && #[trigger] in_shard(file_size, n, i, p) && #[trigger] in_shard(
                file_size,
                n,
                j,
                p,
            ) ==> i == j,
{
    let q = file_size / n;
    assert(shard_start(file_size, n, 0) == 0);
    assert forall|i: nat| i + 1 < n implies #[trigger] shard_end(file_size, n, i) == shard_start(
        file_size,
        n,
        i + 1,
    ) by {
        lemma_shard_bounds(file_size, n, i);
    }
    assert forall|p: nat| p < file_size implies #[trigger] shard_of(file_size, n, p) < n
        && in_shard(file_size, n, shard_of(file_size, n, p), p) by {
        lemma_shard_bounds(file_size, n, (n - 1) as nat);
        if q == 0 || p / q >= n - 1 {
            if q != 0 {
                assert((n - 1) * q <= (p / q) * q) by (nonlinear_arith)
                    requires
                        p / q >= n - 1,
                        q > 0,
                ;
                assert((p / q) * q <= p) by (nonlinear_arith)
                    requires
                        q > 0,
                ;
            }
        } else {
            let w = p / q;
            assert(w * q <= p < (w + 1) * q) by (nonlinear_arith)
                requires
                    q > 0,
                    w == p / q,
            ;
        }
    }
    assert forall|p: nat, i: nat, j: nat|
        i < n && j < n && #[trigger] in_shard(file_size, n, i, p) && #[trigger] in_shard(
            file_size,
            n,
            j,
            p,
        ) implies i == j by {
        if i < j {
            lemma_shards_ordered(file_size, n, i, j);
        } else if j < i {
            lemma_shards_ordered(file_size, n, j, i);
        }
    }
}

proof fn lemma_shards_ordered(file_size: nat, n: nat, i: nat, j: nat)
    requires
        n > 0,
        i < j < n,
    ensures
        shard_end(file_size, n, i) <= shard_start(file_size, n, j),
{
    let q = file_size / n;
    assert((i + 1) * q <= j * q) by (nonlinear_arith)
        requires
            i + 1 <= j,
    ;
}

/// A line starts at offset `p`: the first byte of the file, or one right
/// after a newline.
pub open spec fn is_line_start(data: Seq<u8>, p: int) -> bool {
    0 <= p < data.len() && (p == 0 || data[p - 1] == NEWLINE)
}

/// Offset of the newline that ends the line running from `p`, or the file's
/// length where that line has none.
pub open spec fn line_end(data: Seq<u8>, p: int) -> int
    decreases data.len() - p,
{
    if p < 0 || p >= data.len() {
        data.len() as int
    } else if data[p] == NEWLINE {
        p
    } else {
        line_end(data, p + 1)
    }
}

/// Drops one trailing `\r`, so that `\r\n` terminators are removed whole.
pub open spec fn trim_cr(s: Seq<u8>) -> Seq<u8> {
    if s.len() > 0 && s.last() == CARRIAGE_RETURN {
        s.drop_last()
    } else {
        s
    }
}

/// The text of the line that starts at `p`, without its terminator.
pub open spec fn line_at(data: Seq<u8>, p: int) -> Seq<u8> {
    trim_cr(data.subrange(p, line_end(data, p)))
}

/// The lines whose first byte lies in `[s, e)`, in file order.
pub open spec fn lines_in(data: Seq<u8>, s: int, e: int) -> Seq<Seq<u8>>
    decreases e - s,
{
    if e <= s {
        Seq::empty()
    } else if is_line_start(data, e - 1) {
        lines_in(data, s, e - 1).push(line_at(data, e - 1))
    } else {
        lines_in(data, s, e - 1)
    }
}

/// Splitting a range of offsets splits its lines.
proof fn lemma_lines_split(data: Seq<u8>, a: int, b: int, c: int)
    requires
        a <= b <= c,
    ensures
        lines_in(data, a, c) == lines_in(data, a, b) + lines_in(data, b, c),
    decreases c - b,
{
    if c > b {
        lemma_lines_split(data, a, b, c - 1);
        assert(lines_in(data, a, c) =~= lines_in(data, a, b) + lines_in(data, b, c));
    } else {
        assert(lines_in(data, a, c) =~= lines_in(data, a, b) + lines_in(data, b, c));
    }
}

/// Past the end of the file there is no line.
proof fn lemma_lines_past_end(data: Seq<u8>, s: int, e: int)
    requires
        data.len() <= s || e <= s,
    ensures
        lines_in(data, s, e) == Seq::<Seq<u8>>::empty(),
    decreases e - s,
{
    if e > s {
        lemma_lines_past_end(data, s, e - 1);
    }
}

/// Counts the lines whose first byte lies in `[start, end)`. A line that
/// crosses `end` is counted here; one that crosses `start` is not.
pub fn count_lines_in_partition(data: &[u8], start: usize, end: usize) -> (r: usize)
    ensures
        r == lines_in(data@, start as int, end as int).len(),
{
    let stop = if end < data.len() {
        end
    } else {
        data.len()
    };
    let mut count: usize = 0;
    let mut p: usize = start;
    if p > stop {
        p = stop;
    }
    proof {
        if start > stop {
            lemma_lines_past_end(data@, start as int, end as int);
        }
    }
    while p < stop
        invariant
            p <= stop <= data.len(),
            stop == end || stop == data.len(),
            start <= stop ==> start <= p,
            start > stop ==> p == stop && count == 0,
            start <= stop ==> count == lines_in(data@, start as int, p as int).len(),
            count <= p,
        decreases stop - p,
    {
        if p == 0 || data[p - 1] == NEWLINE {
            count += 1;
        }
        p += 1;
    }
    proof {
        if start <= stop && stop < end {
            lemma_lines_split(data@, start as int, stop as int, end as int);
            lemma_lines_past_end(data@, stop as int, end as int);
            assert(lines_in(data@, start as int, end as int) =~= lines_in(
                data@,
                start as int,
                stop as int,
            ));
        }
    }
    count
}

/// Reads the lines whose first byte lies in `[start, end)`, each without its
/// `\n` or `\r\n` terminator.
pub fn read_shard(data: &[u8], start: usize, end: usize) -> (r: Vec<Vec<u8>>)
    ensures
        r.len() == lines_in(data@, start as int, end as int).len(),
        forall|i: int|
            0 <= i < r.len() ==> r[i]@ == lines_in(data@, start as int, end as int)[i],
{
    let stop = if end < data.len() {
        end
    } else {
        data.len()
    };
    let mut lines: Vec<Vec<u8>> = Vec::new();
    let mut p: usize = start;
    if p > stop {
        p = stop;
    }
    proof {
        if start > stop {
            lemma_lines_past_end(data@, start as int, end as int);
        }
    }
    while p < stop
        invariant
            p <= stop <= data.len(),
            stop == end || stop == data.len(),
            start <= stop ==> start <= p,
            start > stop ==> p == stop && lines.len() == 0,
            start <= stop ==> lines.len() == lines_in(data@, start as int, p as int).len(),
            start <= stop ==> forall|i: int|
                0 <= i < lines.len() ==> lines[i]@ == lines_in(
                    data@,
                    start as int,
                    p as int,
                )[i],
        decreases stop - p,
    {
        if p == 0 || data[p - 1] == NEWLINE {
            let line = line_from(data, p);
            lines.push(line);
        }
        p += 1;
    }
    proof {
        if start <= stop && stop < end {
            lemma_lines_split(data@, start as int, stop as int, end as int);
            lemma_lines_past_end(data@, stop as int, end as int);
            assert(lines_in(data@, start as int, end as int) =~= lines_in(
                data@,
                start as int,
                stop as int,
            ));
        }
    }
    lines
}

/// The line that starts at `p`, without its terminator.
fn line_from(data: &[u8], p: usize) -> (r: Vec<u8>)
    requires
        p < data.len(),
    ensures
        r@ == line_at(data@, p as int),
{
    let mut e: usize = p;
    while e < data.len() && data[e] != NEWLINE
        invariant
            p <= e <= data.len(),
            line_end(data@, e as int) == line_end(data@, p as int),
        decreases data.len() - e,
    {
        e += 1;
    }
    let mut text_end = e;
    if e > p && data[e - 1] == CARRIAGE_RETURN {
        text_end = e - 1;
        assert(data@.subrange(p as int, e as int).drop_last() =~= data@.subrange(
            p as int,
            e as int - 1,
        ));
    }
    let mut r: Vec<u8> = Vec::new();
    r.extend_from_slice(&data[p..text_end]);
    assert(r@ =~= line_at(data@, p as int));
    r
}

/// The lines of the first `k` shards of a plan for `n` workers, one shard
/// after another.
pub open spec fn planned_lines(data: Seq<u8>, n: nat, k: nat) -> Seq<Seq<u8>>
    decreases k,
{
    if k == 0 {
        Seq::empty()
    } else {
        planned_lines(data, n, (k - 1) as nat) + lines_in(
            data,
            shard_start(data.len(), n, (k - 1) as nat) as int,
            shard_end(data.len(), n, (k - 1) as nat) as int,
        )
    }
}

/// Every line of the file is read by exactly one shard: reading the shards of
/// a plan one after another yields the file's lines once each, in order, and
/// their counts add up to the number of lines of the file.
pub proof fn lemma_shards_read_every_line_once(data: Seq<u8>, n: nat)
    requires
        n > 0,
    ensures
        planned_lines(data, n, n) == lines_in(data, 0, data.len() as int),
        planned_lines(data, n, n).len() == lines_in(data, 0, data.len() as int).len(),
{
    let f = data.len();
    let last = (n - 1) as nat;
    lemma_planned_prefix(data, n, last);
    lemma_shard_bounds(f, n, last);
    lemma_lines_split(data, 0, shard_start(f, n, last) as int, f as int);
}

proof fn lemma_planned_prefix(data: Seq<u8>, n: nat, k: nat)
    requires
        k < n,
    ensures
        planned_lines(data, n, k) == lines_in(data, 0, shard_start(data.len(), n, k) as int),
    decreases k,
{
    let f = data.len();
    if k == 0 {
        assert(lines_in(data, 0, 0) =~= Seq::<Seq<u8>>::empty());
    } else {
        let j = (k - 1) as nat;
        lemma_planned_prefix(data, n, j);
        lemma_shard_bounds(f, n, j);
        lemma_lines_split(data, 0, shard_start(f, n, j) as int, shard_end(f, n, j) as int);
    }
}
} // verus!
