//! Reading the kernel's counter files: the aggregate CPU line of the
//! processor statistics, the memory table, and an interface's byte counters.
use vstd::prelude::*;
use crate::text::{decimal, fields, parse_u64, split_fields, views};

verus! {

/// Cumulative CPU ticks: those spent idle, and those of every state together.
#[derive(Clone, Copy, Debug, PartialEq, Eq, Structural)]
pub struct CpuCounters {
    pub idle: u64,
    pub total: u64,
}

/// Cumulative bytes transmitted and received by an interface.
#[derive(Clone, Copy, Debug, PartialEq, Eq, Structural)]
pub struct NetCounters {
    pub tx: u64,
    pub rx: u64,
}

/// Memory and swap figures, in the memory table's unit.
#[derive(Clone, Copy, Debug, PartialEq, Eq, Structural)]
pub struct MemInfo {
    pub mem_total: u64,
    pub mem_available: u64,
    pub swap_total: u64,
    pub swap_free: u64,
}

pub open spec fn sum(s: Seq<u64>) -> nat
    decreases s.len(),
{
    if s.len() == 0 {
        0
    } else {
        sum(s.drop_last()) + s.last() as nat
    }
}

pub open spec fn all_decimal(fs: Seq<Seq<u8>>) -> bool {
    forall|k: int| 0 <= k < fs.len() ==> (#[trigger] decimal(fs[k])) is Some
}

pub open spec fn decimal_values(fs: Seq<Seq<u8>>) -> Seq<u64> {
    fs.map_values(|f: Seq<u8>| decimal(f)->0)
}

/// The counters of the aggregate CPU line (`cpu  4705 356 584 3699 ...`): a
/// label, then at least four tick counts, the fourth of which is the idle
/// time. The total is the sum of all of them.
pub open spec fn cpu_counters_of(line: Seq<u8>) -> Option<CpuCounters> {
    let fs = fields(line);
    if fs.len() >= 5 && all_decimal(fs.skip(1)) && sum(decimal_values(fs.skip(1))) <= u64::MAX {
        Some(
            CpuCounters {
                idle: decimal_values(fs.skip(1))[3],
                total: sum(decimal_values(fs.skip(1))) as u64,
            },
        )
    } else {
        None
    }
}

/// The number that follows the first field equal to `key`.
pub open spec fn lookup(fs: Seq<Seq<u8>>, key: Seq<u8>) -> Option<u64>
    decreases fs.len(),
{
    if fs.len() < 2 {
        None
    } else if fs[0] == key {
        decimal(fs[1])
    } else {
        lookup(fs.drop_first(), key)
    }
}

/// `MemTotal:`
pub open spec fn mem_total_key() -> Seq<u8> {
    seq![77u8, 101, 109, 84, 111, 116, 97, 108, 58]
}

/// `MemAvailable:`
pub open spec fn mem_available_key() -> Seq<u8> {
    seq![77u8, 101, 109, 65, 118, 97, 105, 108, 97, 98, 108, 101, 58]
}

/// `SwapTotal:`
pub open spec fn swap_total_key() -> Seq<u8> {
    seq![83u8, 119, 97, 112, 84, 111, 116, 97, 108, 58]
}

/// `SwapFree:`
pub open spec fn swap_free_key() -> Seq<u8> {
    seq![83u8, 119, 97, 112, 70, 114, 101, 101, 58]
}

/// The memory table's four figures, each read after its key.
pub open spec fn mem_info_of(text: Seq<u8>) -> Option<MemInfo> {
    let fs = fields(text);
    match (
        lookup(fs, mem_total_key()),
        lookup(fs, mem_available_key()),
        lookup(fs, swap_total_key()),
        lookup(fs, swap_free_key()),
    ) {
        (Some(a), Some(b), Some(c), Some(d)) => Some(
            MemInfo { mem_total: a, mem_available: b, swap_total: c, swap_free: d },
        ),
        _ => None,
    }
}

/// A counter file: one number, with whitespace around it allowed.
pub open spec fn counter_of(text: Seq<u8>) -> Option<u64> {
    let fs = fields(text);
    if fs.len() == 1 {
        decimal(fs[0])
    } else {
        None
    }
}

fn parse_decimals(fs: &Vec<Vec<u8>>, from: usize) -> (r: Option<Vec<u64>>)
    requires
        from <= fs@.len(),
    ensures
        r is None <==> !all_decimal(views(fs@).skip(from as int)),
        r matches Some(v) ==> v@ == decimal_values(views(fs@).skip(from as int)),
{
    let ghost vs = views(fs@);
    let mut out: Vec<u64> = Vec::new();
    let mut k: usize = from;
    while k < fs.len()
        invariant
            from <= k <= fs@.len(),
            vs == views(fs@),
            all_decimal(vs.subrange(from as int, k as int)),
            out@ == decimal_values(vs.subrange(from as int, k as int)),
        decreases fs@.len() - k,
    {
        let ghost done = vs.subrange(from as int, k as int);
        let ghost next = vs.subrange(from as int, k + 1);
        assert(next =~= done.push(vs[k as int]));
        match parse_u64(fs[k].as_slice()) {
            None => {
                assert(vs.skip(from as int)[k - from] == vs[k as int]);
                return None;
            },
            Some(v) => {
                out.push(v);
                assert forall|j: int| 0 <= j < next.len() implies (#[trigger] decimal(next[j])) is Some by {
                    if j < done.len() {
                        assert(next[j] == done[j]);
                    }
                }
                assert(out@ =~= decimal_values(next));
            },
        }
        k += 1;
    }
    assert(vs.subrange(from as int, fs@.len() as int) =~= vs.skip(from as int));
    Some(out)
}

proof fn lemma_sum_prefix_le(s: Seq<u64>, i: int)
    requires
        0 <= i <= s.len(),
    ensures
        sum(s.subrange(0, i)) <= sum(s),
    decreases s.len(),
{
    if i == s.len() {
        assert(s.subrange(0, i) =~= s);
    } else {
        let t = s.drop_last();
        assert(t.subrange(0, i) =~= s.subrange(0, i));
        lemma_sum_prefix_le(t, i);
    }
}

fn checked_sum(v: &Vec<u64>) -> (r: Option<u64>)
    ensures
        r == (if sum(v@) <= u64::MAX {
            Some(sum(v@) as u64)
        } else {
            None
        }),
{
    let mut acc: u64 = 0;
    let mut i: usize = 0;
    assert(v@.subrange(0, 0) =~= Seq::<u64>::empty());
    while i < v.len()
        invariant
            i <= v@.len(),
            acc as nat == sum(v@.subrange(0, i as int)),
        decreases v@.len() - i,
    {
        assert(v@.subrange(0, i + 1).drop_last() =~= v@.subrange(0, i as int));
        match acc.checked_add(v[i]) {
            None => {
                proof {
                    lemma_sum_prefix_le(v@, i + 1);
                }
                return None;
            },
            Some(a) => {
                acc = a;
            },
        }
        i += 1;
    }
    assert(v@.subrange(0, v@.len() as int) =~= v@);
    Some(acc)
}

/// Reads the aggregate CPU line of the processor statistics; `None` where it
/// is malformed.
pub fn parse_cpu_line(line: &[u8]) -> (r: Option<CpuCounters>)
    ensures
        r == cpu_counters_of(line@),
{
    let fs = split_fields(line);
    if fs.len() < 5 {
        return None;
    }
    match parse_decimals(&fs, 1) {
        None => None,
        Some(vals) => match checked_sum(&vals) {
            None => None,
            Some(total) => Some(CpuCounters { idle: vals[3], total }),
        },
    }
}

fn same_bytes(a: &[u8], b: &[u8]) -> (r: bool)
    ensures
        r == (a@ == b@),
{
    if a.len() != b.len() {
        return false;
    }
    let mut i: usize = 0;
    while i < a.len()
        invariant
            i <= a@.len(),
            a@.len() == b@.len(),
            forall|j: int| 0 <= j < i ==> a@[j] == b@[j],
        decreases a@.len() - i,
    {
        if a[i] != b[i] {
            return false;
        }
        i += 1;
    }
    assert(a@ =~= b@);
    true
}

fn find_value(fs: &Vec<Vec<u8>>, key: &[u8]) -> (r: Option<u64>)
    ensures
        r == lookup(views(fs@), key@),
{
    let ghost vs = views(fs@);
    let mut k: usize = 0;
    assert(vs.skip(0) =~= vs);
    while k < fs.len()
        invariant
            k <= fs@.len(),
            vs == views(fs@),
            lookup(vs, key@) == lookup(vs.skip(k as int), key@),
        decreases fs@.len() - k,
    {
        let ghost rest = vs.skip(k as int);
        if k + 1 >= fs.len() {
            return None;
        }
        assert(rest[0] == fs@[k as int]@);
        assert(rest[1] == fs@[k + 1]@);
        if same_bytes(fs[k].as_slice(), key) {
            return parse_u64(fs[k + 1].as_slice());
        }
        assert(rest.drop_first() =~= vs.skip(k + 1));
        k += 1;
    }
    None
}

/// Reads the memory table; `None` where one of its four figures is missing
/// or malformed.
pub fn parse_meminfo(text: &[u8]) -> (r: Option<MemInfo>)
    ensures
        r == mem_info_of(text@),
{
    let fs = split_fields(text);
    let k_mem_total: [u8; 9] = [77, 101, 109, 84, 111, 116, 97, 108, 58];
    let k_mem_available: [u8; 13] = [77, 101, 109, 65, 118, 97, 105, 108, 97, 98, 108, 101, 58];
    let k_swap_total: [u8; 10] = [83, 119, 97, 112, 84, 111, 116, 97, 108, 58];
    let k_swap_free: [u8; 9] = [83, 119, 97, 112, 70, 114, 101, 101, 58];
    let a = find_value(&fs, k_mem_total.as_slice());
    let b = find_value(&fs, k_mem_available.as_slice());
    let c = find_value(&fs, k_swap_total.as_slice());
    let d = find_value(&fs, k_swap_free.as_slice());
    match (a, b, c, d) {
        (Some(a), Some(b), Some(c), Some(d)) => Some(
            MemInfo { mem_total: a, mem_available: b, swap_total: c, swap_free: d },
        ),
        _ => None,
    }
}

/// Reads a byte-counter file; `None` unless it holds exactly one number.
pub fn parse_counter(text: &[u8]) -> (r: Option<u64>)
    ensures
        r == counter_of(text@),
{
    let fs = split_fields(text);
    if fs.len() != 1 {
        return None;
    }
    parse_u64(fs[0].as_slice())
}

} // verus!
