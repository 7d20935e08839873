use vstd::prelude::*;
use crate::addresses::texts;
use crate::velocity_analyzer::TxActivity;

verus! {

/// One wallet transaction as the node lists it; fields the node may leave
/// out are optional.
#[derive(Debug, Clone)]
pub struct TxRecord {
    /// Whether the node files it as a send.
    pub is_send: bool,
    pub address: Option<String>,
    pub block_height: Option<u64>,
    /// Signed amount in satoshis; sends come negative.
    pub amount_sats: i64,
}

/// Outgoing activity with the number of records skipped for a missing field.
#[derive(Debug, Clone, Copy, PartialEq, Eq, Structural)]
pub struct ActivityTally {
    pub activity: TxActivity,
    pub partial_responses: u64,
}

/// A send from one of `addrs` in a block within `[start, end]`.
pub open spec fn record_counts(r: TxRecord, addrs: Seq<Seq<char>>, start: u64, end: u64) -> bool {
    &&& r.is_send
    &&& r.address.is_some()
    &&& addrs.contains(r.address.unwrap()@)
    &&& r.block_height.is_some()
    &&& start <= r.block_height.unwrap() <= end
}

/// A send skipped for a missing address, or from one of `addrs` without a height.
pub open spec fn record_partial(r: TxRecord, addrs: Seq<Seq<char>>) -> bool {
    &&& r.is_send
    &&& (r.address.is_none() || (addrs.contains(r.address.unwrap()@) && r.block_height.is_none()))
}

pub open spec fn magnitude(a: i64) -> int {
    if a < 0 {
        -a
    } else {
        a as int
    }
}

pub open spec fn capped(x: int, cap: int) -> int {
    if x > cap {
        cap
    } else {
        x
    }
}

/// Count and volume of the counted sends, and the number of partial
/// records, each held at its type's maximum.
pub open spec fn tally_of(rs: Seq<TxRecord>, addrs: Seq<Seq<char>>, start: u64, end: u64) -> (
    int,
    int,
    int,
)
    decreases rs.len(),
{
    if rs.len() == 0 {
        (0, 0, 0)
    } else {
        let (c, v, p) = tally_of(rs.drop_last(), addrs, start, end);
        let r = rs.last();
        if record_counts(r, addrs, start, end) {
            (capped(c + 1, u32::MAX as int), capped(v + magnitude(r.amount_sats), u64::MAX as int), p)
        } else if record_partial(r, addrs) {
            (c, v, capped(p + 1, u64::MAX as int))
        } else {
            (c, v, p)
        }
    }
}

/// Whether `a` is one of `addrs`.
pub fn contains_address(addrs: &Vec<String>, a: &String) -> (r: bool)
    ensures
        r == texts(addrs@).contains(a@),
{
    let mut i: usize = 0;
    while i < addrs.len()
        invariant
            i <= addrs@.len(),
            forall|j: int| 0 <= j < i ==> (#[trigger] addrs@[j])@ != a@,
        decreases addrs@.len() - i,
    {
        if addrs[i] == *a {
            assert(texts(addrs@)[i as int] == a@);
            return true;
        }
        i = i + 1;
    }
    assert forall|j: int| 0 <= j < texts(addrs@).len() implies texts(addrs@)[j] != a@ by {
        assert(texts(addrs@)[j] == addrs@[j]@);
    }
    false
}

/// Outgoing activity of `addresses` over `[start_height, end_height]` from
/// the node's transaction list: sends only, from one of the addresses, in a
/// block within the range, amounts taken as magnitudes. A send without an
/// address, or from one of the addresses without a height, is skipped and
/// counted as partial.
pub fn aggregate_outgoing(
    records: &Vec<TxRecord>,
    addresses: &Vec<String>,
    start_height: u64,
    end_height: u64,
) -> (r: ActivityTally)
    ensures
        (r.activity.count_outgoing as int, r.activity.volume_outgoing as int, r.partial_responses as int)
            == tally_of(records@, texts(addresses@), start_height, end_height),
{
    let ghost addrs = texts(addresses@);
    let mut count: u32 = 0;
    let mut volume: u64 = 0;
    let mut partial: u64 = 0;
    let mut i: usize = 0;
    while i < records.len()
        invariant
            i <= records@.len(),
            addrs == texts(addresses@),
            (count as int, volume as int, partial as int) == tally_of(
                records@.take(i as int),
                addrs,
                start_height,
                end_height,
            ),
        decreases records@.len() - i,
    {
        let rec = &records[i];
        assert(records@.take(i + 1).drop_last() == records@.take(i as int));
        assert(records@.take(i + 1).last() == records@[i as int]);
        if rec.is_send {
            match &rec.address {
                None => {
                    partial = partial.saturating_add(1);
                },
                Some(a) => {
                    if contains_address(addresses, a) {
                        match rec.block_height {
                            None => {
                                partial = partial.saturating_add(1);
                            },
                            Some(h) => {
                                if start_height <= h && h <= end_height {
                                    count = count.saturating_add(1);
                                    let m: u64 = if rec.amount_sats < 0 {
                                        (-(rec.amount_sats as i128)) as u64
                                    } else {
                                        rec.amount_sats as u64
                                    };
                                    volume = volume.saturating_add(m);
                                }
                            },
                        }
                    }
                },
            }
        }
        i = i + 1;
    }
    assert(records@.take(records@.len() as int) == records@);
    ActivityTally {
        activity: TxActivity { count_outgoing: count, volume_outgoing: volume },
        partial_responses: partial,
    }
}

} // verus!
