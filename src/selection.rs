//! Choosing the peripheral to connect to: the filter a scan is matched
//! against, the order of the candidates, the automatic pick and the answer to
//! the interactive prompt.

use vstd::prelude::*;

use itertools::Itertools;

use crate::config::{addrs_of, Args, Hrm, HwAddr};

verus! {

/// Name shown for a peripheral that advertises none.
pub const UNKNOWN_NAME: &'static str = "[peripheral name unknown]";

/// A peripheral found by a scan.
#[derive(Debug, Clone)]
pub struct Candidate {
    pub name: String,
    pub addr: HwAddr,
    /// Its address is in the registry.
    pub is_known: bool,
    /// Its address matches the active selection filter.
    pub filtered: bool,
}

/// The address a scan prefers, the first of these that is set: the pinned
/// device when pinning is on and one is connected; the requested address; the
/// registry entry that the 1-based index names, if it exists.
pub open spec fn filter_spec(args: Args, pinned: Option<HwAddr>, registry: Seq<Hrm>) -> Option<HwAddr> {
    if args.pin_device && pinned is Some {
        pinned
    } else if args.hrm_mac is Some {
        args.hrm_mac
    } else {
        match args.hrm_index {
            Some(i) => if 1 <= i <= registry.len() {
                Some(registry[i - 1].mac)
            } else {
                None
            },
            None => None,
        }
    }
}

/// Computes the address a scan prefers (see `filter_spec`).
pub fn selection_filter(args: &Args, pinned: Option<HwAddr>, registry: &Vec<Hrm>) -> (r: Option<HwAddr>)
    ensures
        r == filter_spec(*args, pinned, registry@),
{
    if args.pin_device && pinned.is_some() {
        pinned
    } else if args.hrm_mac.is_some() {
        args.hrm_mac
    } else {
        match args.hrm_index {
            Some(i) => {
                if 1 <= i && (i as usize) <= registry.len() {
                    Some(registry[(i - 1) as usize].mac)
                } else {
                    None
                }
            },
            None => None,
        }
    }
}

impl Candidate {
    /// A candidate with its flags computed against the filter and the registry.
    /// A peripheral without a name is shown as `UNKNOWN_NAME`.
    pub fn new(local_name: Option<String>, addr: HwAddr, filter: Option<HwAddr>, registry: &Vec<Hrm>) -> (r:
        Candidate)
        ensures
            r.name@ == match local_name {
                Some(n) => n@,
                None => UNKNOWN_NAME@,
            },
            r.addr == addr,
            r.is_known == addrs_of(registry@).contains(addr),
            r.filtered == (filter == Some(addr)),
    {
        let name = match local_name {
            Some(n) => n,
            None => UNKNOWN_NAME.to_owned(),
        };
        let is_known = registered(registry, addr);
        Candidate { name, addr, is_known, filtered: filter == Some(addr) }
    }
}

fn registered(registry: &Vec<Hrm>, addr: HwAddr) -> (r: bool)
    ensures
        r == addrs_of(registry@).contains(addr),
{
    let p = registry_position(registry, addr);
    proof {
        if addrs_of(registry@).contains(addr) {
            let k = choose|k: int| 0 <= k < addrs_of(registry@).len() && addrs_of(registry@)[k] == addr;
            assert(registry@[k].mac == addr);
        }
        if p < registry@.len() {
            assert(addrs_of(registry@)[p as int] == addr);
        }
    }
    p < registry.len()
}

/// Position of the first entry with address `a`, or the length when none has it.
pub open spec fn position_of(list: Seq<Hrm>, a: HwAddr) -> nat
    decreases list.len(),
{
    if list.len() == 0 {
        0
    } else if list[0].mac == a {
        0
    } else {
        1 + position_of(list.drop_first(), a)
    }
}

proof fn lemma_position_of(list: Seq<Hrm>, a: HwAddr, i: int)
    requires
        0 <= i <= list.len(),
        forall|k: int| 0 <= k < i ==> list[k].mac != a,
    ensures
        position_of(list, a) == i + position_of(list.subrange(i, list.len() as int), a),
    decreases i,
{
    if i > 0 {
        let rest = list.drop_first();
        lemma_position_of(rest, a, i - 1);
        assert(rest.subrange(i - 1, rest.len() as int) =~= list.subrange(i, list.len() as int));
    } else {
        assert(list.subrange(0, list.len() as int) =~= list);
    }
}

fn registry_position(registry: &Vec<Hrm>, addr: HwAddr) -> (r: usize)
    ensures
        r == position_of(registry@, addr),
        r <= registry@.len(),
        r < registry@.len() ==> registry@[r as int].mac == addr,
        forall|k: int| 0 <= k < r ==> registry@[k].mac != addr,
{
    let mut i: usize = 0;
    while i < registry.len()
        invariant
            i <= registry@.len(),
            forall|k: int| 0 <= k < i ==> registry@[k].mac != addr,
        decreases registry@.len() - i,
    {
        if registry[i].mac == addr {
            proof {
                lemma_position_of(registry@, addr, i as int);
            }
            return i;
        }
        i += 1;
    }
    proof {
        lemma_position_of(registry@, addr, i as int);
    }
    i
}

/// A character code lower-cased in the ASCII range only.
pub open spec fn ascii_lower(c: u32) -> u32 {
    if 65 <= c <= 90 {
        (c + 32) as u32
    } else {
        c
    }
}

/// The code points of a name, ASCII letters lower-cased.
pub open spec fn name_key(name: Seq<char>) -> Seq<u32> {
    name.map_values(|c: char| ascii_lower(c as u32))
}

fn lower_name(name: &String) -> (r: Vec<u32>)
    ensures
        r@ == name_key(name@),
{
    let s = name.as_str();
    let n = s.unicode_len();
    let mut r: Vec<u32> = Vec::new();
    let mut i: usize = 0;
    while i < n
        invariant
            n == s@.len(),
            s@ == name@,
            i <= n,
            r@ == name_key(name@).subrange(0, i as int),
        decreases n - i,
    {
        let c = s.get_char(i) as u32;
        let l: u32 = if 65 <= c && c <= 90 { c + 32 } else { c };
        r.push(l);
        i += 1;
        assert(r@ =~= name_key(name@).subrange(0, i as int));
    }
    assert(r@ =~= name_key(name@));
    r
}

/// Lexicographic order of code-point sequences.
pub open spec fn codes_lt(a: Seq<u32>, b: Seq<u32>) -> bool
    decreases a.len(),
{
    if b.len() == 0 {
        false
    } else if a.len() == 0 {
        true
    } else if a[0] != b[0] {
        a[0] < b[0]
    } else {
        codes_lt(a.drop_first(), b.drop_first())
    }
}

/// A sort key as its parts: two ranks and a code-point sequence.
pub open spec fn key_view(k: (usize, usize, Vec<u32>)) -> (usize, usize, Seq<u32>) {
    (k.0, k.1, k.2@)
}

/// Lexicographic order of sort keys.
pub open spec fn key_lt(a: (usize, usize, Seq<u32>), b: (usize, usize, Seq<u32>)) -> bool {
    a.0 < b.0 || (a.0 == b.0 && (a.1 < b.1 || (a.1 == b.1 && codes_lt(a.2, b.2))))
}

/// `order` lists every index below `keys.len()` once, ascending by key, and
/// indices with equal keys in the order they were given.
pub open spec fn is_stable_order(keys: Seq<(usize, usize, Seq<u32>)>, order: Seq<usize>) -> bool {
    &&& order.len() == keys.len()
    &&& forall|i: int| 0 <= i < order.len() ==> #[trigger] order[i] < keys.len()
    &&& forall|i: int, j: int| 0 <= i < j < order.len() ==> #[trigger] order[i] != #[trigger] order[j]
    &&& forall|i: int, j: int|
        0 <= i < j < order.len() ==> !key_lt(keys[#[trigger] order[j] as int], keys[#[trigger] order[i] as int])
    &&& forall|i: int, j: int|
        0 <= i < j < order.len() && keys[#[trigger] order[i] as int] == keys[#[trigger] order[j] as int]
            ==> order[i] < order[j]
}

/// Relies on itertools::Itertools::sorted_by_key, which collects the items and
/// sorts them with the standard library's stable `sort_by_key`. Tuples and
/// vectors compare lexicographically, so the indices come out ascending by key,
/// equal keys in the order they were given.
#[verifier::external_body]
fn stable_sort_indices(keys: &Vec<(usize, usize, Vec<u32>)>) -> (r: Vec<usize>)
    ensures
        is_stable_order(keys@.map_values(|k: (usize, usize, Vec<u32>)| key_view(k)), r@),
{
    (0..keys.len()).sorted_by_key(|i| keys[*i].clone()).collect()
}

/// The sort key of a candidate: filter matches first, then registry entries
/// in registry order, then by case-insensitive name.
pub open spec fn candidate_key(c: Candidate, registry: Seq<Hrm>) -> (usize, usize, Seq<u32>) {
    (if c.filtered { 0usize } else { 1usize }, position_of(registry, c.addr) as usize, name_key(c.name@))
}

/// The keys of all candidates.
pub open spec fn candidate_keys(cands: Seq<Candidate>, registry: Seq<Hrm>) -> Seq<(usize, usize, Seq<u32>)> {
    cands.map_values(|c: Candidate| candidate_key(c, registry))
}

/// The order in which candidates are offered: a stable sort by filter match,
/// registry position and case-insensitive name. Returns the candidates'
/// indices in that order.
pub fn order_candidates(cands: &Vec<Candidate>, registry: &Vec<Hrm>) -> (order: Vec<usize>)
    ensures
        is_stable_order(candidate_keys(cands@, registry@), order@),
{
    let mut keys: Vec<(usize, usize, Vec<u32>)> = Vec::new();
    let mut i: usize = 0;
    while i < cands.len()
        invariant
            i <= cands@.len(),
            keys@.len() == i,
            forall|k: int| 0 <= k < i ==> key_view(#[trigger] keys@[k]) == candidate_key(cands@[k], registry@),
        decreases cands@.len() - i,
    {
        let c = &cands[i];
        let rank: usize = if c.filtered { 0 } else { 1 };
        let key = (rank, registry_position(registry, c.addr), lower_name(&c.name));
        keys.push(key);
        i += 1;
    }
    let order = stable_sort_indices(&keys);
    assert(keys@.map_values(|k: (usize, usize, Vec<u32>)| key_view(k)) =~= candidate_keys(cands@, registry@));
    order
}

/// Whether the automatic pick may take a candidate: one that matches the
/// filter when new devices are accepted, otherwise one from the registry.
pub open spec fn auto_acceptable(c: Candidate, accept_new_device: bool) -> bool {
    if accept_new_device {
        c.filtered
    } else {
        c.is_known
    }
}

/// Picks a candidate without asking: the first acceptable one in the given
/// order, or `None` when the user has to be asked.
pub fn choose_automatically(cands: &Vec<Candidate>, accept_new_device: bool) -> (r: Option<usize>)
    ensures
        match r {
            Some(i) => i < cands@.len() && auto_acceptable(cands@[i as int], accept_new_device) && forall|k: int|
                0 <= k < i ==> !auto_acceptable(#[trigger] cands@[k], accept_new_device),
            None => forall|k: int| 0 <= k < cands@.len() ==> !auto_acceptable(#[trigger] cands@[k], accept_new_device),
        },
{
    let mut i: usize = 0;
    while i < cands.len()
        invariant
            i <= cands@.len(),
            forall|k: int| 0 <= k < i ==> !auto_acceptable(#[trigger] cands@[k], accept_new_device),
        decreases cands@.len() - i,
    {
        let ok = if accept_new_device { cands[i].filtered } else { cands[i].is_known };
        if ok {
            return Some(i);
        }
        i += 1;
    }
    None
}

/// The user's answer to the selection prompt.
#[derive(Debug, Clone, Copy, PartialEq, Eq, Structural)]
pub enum Choice {
    /// Scan again (the answer `r`, or no answer before the timeout).
    Rescan,
    /// Take the candidate at this 0-based position.
    Pick(usize),
    /// Not understood; ask again.
    Invalid,
}

/// Value of a sequence of decimal digits.
pub open spec fn digits_value(s: Seq<char>) -> int
    decreases s.len(),
{
    if s.len() == 0 {
        0
    } else {
        digits_value(s.drop_last()) * 10 + (s.last() as int - '0' as int)
    }
}

/// The text without one leading `+`.
pub open spec fn unsigned_digits(s: Seq<char>) -> Seq<char> {
    if s.len() > 0 && s[0] == '+' {
        s.drop_first()
    } else {
        s
    }
}

/// A byte written in decimal: an optional `+`, then at least one digit, with
/// a value of at most 255.
pub open spec fn decimal_u8(s: Seq<char>) -> Option<u8> {
    let d = unsigned_digits(s);
    if d.len() > 0 && (forall|i: int| 0 <= i < d.len() ==> '0' <= #[trigger] d[i] <= '9') && digits_value(d)
        <= 255 {
        Some(digits_value(d) as u8)
    } else {
        None
    }
}

/// Reads a byte written in decimal (see `decimal_u8`).
pub fn parse_decimal_u8(s: &str) -> (r: Option<u8>)
    ensures
        r == decimal_u8(s@),
{
    let n = s.unicode_len();
    let start: usize = if n > 0 && s.get_char(0) == '+' { 1 } else { 0 };
    let ghost d = unsigned_digits(s@);
    assert(d =~= s@.subrange(start as int, n as int));
    if start == n {
        return None;
    }
    let mut value: u32 = 0;
    let mut i: usize = start;
    while i < n
        invariant
            n == s@.len(),
            start <= i <= n,
            d == s@.subrange(start as int, n as int),
            d == unsigned_digits(s@),
            forall|k: int| 0 <= k < i - start ==> '0' <= #[trigger] d[k] <= '9',
            value as int == if digits_value(d.subrange(0, i - start)) < 256 {
                digits_value(d.subrange(0, i - start))
            } else {
                256
            },
        decreases n - i,
    {
        let c = s.get_char(i);
        if !('0' <= c && c <= '9') {
            assert(d[i - start] == c);
            return None;
        }
        let digit = (c as u32) - ('0' as u32);
        let next = value * 10 + digit;
        value = if next < 256 { next } else { 256 };
        i += 1;
        assert(d.subrange(0, i - start).drop_last() =~= d.subrange(0, i - start - 1));
    }
    assert(d.subrange(0, n - start) =~= d);
    if value < 256 {
        Some(value as u8)
    } else {
        None
    }
}

/// The meaning of an answer `line` when `count` candidates were offered.
pub open spec fn choice_spec(line: Seq<char>, count: usize) -> Choice {
    if line == seq!['r'] {
        Choice::Rescan
    } else {
        match decimal_u8(line) {
            Some(n) => if 1 <= n <= count {
                Choice::Pick((n - 1) as usize)
            } else {
                Choice::Invalid
            },
            None => Choice::Invalid,
        }
    }
}

/// Interprets an answer to the selection prompt: `r` asks for a rescan, a
/// number from 1 to `count` picks that candidate, anything else is invalid.
pub fn parse_choice(line: &str, count: usize) -> (r: Choice)
    ensures
        r == choice_spec(line@, count),
{
    if line.unicode_len() == 1 && line.get_char(0) == 'r' {
        assert(line@ =~= seq!['r']);
        return Choice::Rescan;
    }
    assert(line@ != seq!['r']) by {
        if line@ == seq!['r'] {
            assert(line@.len() == 1 && line@[0] == 'r');
        }
    }
    match parse_decimal_u8(line) {
        Some(n) => {
            if 1 <= n && (n as usize) <= count {
                Choice::Pick((n - 1) as usize)
            } else {
                Choice::Invalid
            }
        },
        None => Choice::Invalid,
    }
}

/// How long the prompt waits for an answer, in seconds: one second when
/// rescanning without asking is on and a device was connected before, else
/// no limit.
pub fn prompt_timeout_secs(noninteractive_rescan: bool, is_reconnect: bool) -> (r: Option<u64>)
    ensures
        r == if noninteractive_rescan && is_reconnect {
            Some(1u64)
        } else {
            None
        },
{
    if noninteractive_rescan && is_reconnect {
        Some(1)
    } else {
        None
    }
}

} // verus!
