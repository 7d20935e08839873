use vstd::prelude::*;
use crate::addresses::{is_normal_form, lemma_normal_form_unique, normalized_addresses, same_texts, texts};
use crate::utxo_scoring::UtxoEntry;
use crate::velocity_analyzer::{TxActivity, VelocityError, VelocityErrorKind};

verus! {

/// Outputs found for a normalized address list at a tip height.
#[derive(Debug)]
pub struct UtxoCacheEntry {
    pub addresses: Vec<String>,
    pub height: u64,
    pub utxos: Vec<UtxoEntry>,
}

/// Activity found for a normalized address list over a height range.
#[derive(Debug)]
pub struct TxCacheEntry {
    pub addresses: Vec<String>,
    pub start_height: u64,
    pub end_height: u64,
    pub activity: TxActivity,
}

/// The answer of the cache to a query: the stored result, or the
/// normalized address list to fetch it for.
#[derive(Debug)]
pub enum CacheAnswer<T> {
    Hit(T),
    Miss(Vec<String>),
}

pub open spec fn utxo_key_is(e: UtxoCacheEntry, key: Seq<Seq<char>>, height: u64) -> bool {
    texts(e.addresses@) == key && e.height == height
}

pub open spec fn tx_key_is(e: TxCacheEntry, key: Seq<Seq<char>>, start: u64, end: u64) -> bool {
    texts(e.addresses@) == key && e.start_height == start && e.end_height == end
}

/// What the cache holds for `key` at `height`.
pub open spec fn utxo_lookup(es: Seq<UtxoCacheEntry>, key: Seq<Seq<char>>, height: u64) -> Option<
    Seq<UtxoEntry>,
> {
    if exists|i: int| 0 <= i < es.len() && utxo_key_is(#[trigger] es[i], key, height) {
        let i = choose|i: int| 0 <= i < es.len() && utxo_key_is(#[trigger] es[i], key, height);
        Some(es[i].utxos@)
    } else {
        None
    }
}

/// What the cache holds for `key` over `[start, end]`.
pub open spec fn tx_lookup(es: Seq<TxCacheEntry>, key: Seq<Seq<char>>, start: u64, end: u64) -> Option<
    TxActivity,
> {
    if exists|i: int| 0 <= i < es.len() && tx_key_is(#[trigger] es[i], key, start, end) {
        let i = choose|i: int| 0 <= i < es.len() && tx_key_is(#[trigger] es[i], key, start, end);
        Some(es[i].activity)
    } else {
        None
    }
}

pub open spec fn utxo_keys_unique(es: Seq<UtxoCacheEntry>) -> bool {
    forall|i: int, j: int|
        0 <= i < es.len() && 0 <= j < es.len() && i != j ==> !utxo_key_is(
            #[trigger] es[i],
            texts(es[j].addresses@),
            (#[trigger] es[j]).height,
        )
}

pub open spec fn tx_keys_unique(es: Seq<TxCacheEntry>) -> bool {
    forall|i: int, j: int|
        0 <= i < es.len() && 0 <= j < es.len() && i != j ==> !tx_key_is(
            #[trigger] es[i],
            texts(es[j].addresses@),
            (#[trigger] es[j]).start_height,
            es[j].end_height,
        )
}

/// Address lists with the same addresses, in any order and with any repeats,
/// normalize to one key, and so find the same cached outputs and activity.
pub proof fn lemma_same_addresses_same_answer(
    utxos: Seq<UtxoCacheEntry>,
    txs: Seq<TxCacheEntry>,
    k1: Seq<Seq<char>>,
    k2: Seq<Seq<char>>,
    a1: Seq<Seq<char>>,
    a2: Seq<Seq<char>>,
    height: u64,
    start: u64,
    end: u64,
)
    requires
        is_normal_form(k1, a1),
        is_normal_form(k2, a2),
        a1.to_set() == a2.to_set(),
    ensures
        utxo_lookup(utxos, k1, height) == utxo_lookup(utxos, k2, height),
        tx_lookup(txs, k1, start, end) == tx_lookup(txs, k2, start, end),
{
    lemma_normal_form_unique(k1, k2, a1, a2);
}

proof fn lemma_utxo_lookup_at(es: Seq<UtxoCacheEntry>, i: int, key: Seq<Seq<char>>, height: u64)
    requires
        utxo_keys_unique(es),
        0 <= i < es.len(),
        utxo_key_is(es[i], key, height),
    ensures
        utxo_lookup(es, key, height) == Some(es[i].utxos@),
{
    let c = choose|c: int| 0 <= c < es.len() && utxo_key_is(#[trigger] es[c], key, height);
    if c != i {
        assert(!utxo_key_is(es[c], texts(es[i].addresses@), es[i].height));
    }
}

proof fn lemma_tx_lookup_at(es: Seq<TxCacheEntry>, i: int, key: Seq<Seq<char>>, start: u64, end: u64)
    requires
        tx_keys_unique(es),
        0 <= i < es.len(),
        tx_key_is(es[i], key, start, end),
    ensures
        tx_lookup(es, key, start, end) == Some(es[i].activity),
{
    let c = choose|c: int| 0 <= c < es.len() && tx_key_is(#[trigger] es[c], key, start, end);
    if c != i {
        assert(!tx_key_is(es[c], texts(es[i].addresses@), es[i].start_height, es[i].end_height));
    }
}

/// Results of node queries, keyed by normalized address list and height,
/// dropped whole when the tip height goes down.
pub struct ChainCache {
    utxos: Vec<UtxoCacheEntry>,
    transactions: Vec<TxCacheEntry>,
    last_tip_height: Option<u64>,
}

impl ChainCache {
    pub closed spec fn spec_utxos(&self) -> Seq<UtxoCacheEntry> {
        self.utxos@
    }

    pub closed spec fn spec_transactions(&self) -> Seq<TxCacheEntry> {
        self.transactions@
    }

    pub closed spec fn spec_last_tip(&self) -> Option<u64> {
        self.last_tip_height
    }

    pub open spec fn wf(&self) -> bool {
        utxo_keys_unique(self.spec_utxos()) && tx_keys_unique(self.spec_transactions())
    }

    pub fn new() -> (r: Self)
        ensures
            r.wf(),
            r.spec_utxos().len() == 0,
            r.spec_transactions().len() == 0,
            r.spec_last_tip().is_none(),
    {
        ChainCache { utxos: Vec::new(), transactions: Vec::new(), last_tip_height: None }
    }

    /// The last tip height seen.
    pub fn last_tip_height(&self) -> (r: Option<u64>)
        ensures
            r == self.spec_last_tip(),
    {
        self.last_tip_height
    }

    /// Records the tip height; one lower than the last is a reorganization,
    /// which drops every cached result. Returns whether it was one.
    pub fn observe_tip(&mut self, tip_height: u64) -> (reorg: bool)
        requires
            old(self).wf(),
        ensures
            final(self).wf(),
            reorg == (old(self).spec_last_tip().is_some() && tip_height < old(self).spec_last_tip().unwrap()),
            reorg ==> final(self).spec_utxos().len() == 0 && final(self).spec_transactions().len() == 0,
            !reorg ==> final(self).spec_utxos() == old(self).spec_utxos() && final(self).spec_transactions() == old(self).spec_transactions(),
            final(self).spec_last_tip() == Some(tip_height),
    {
        let reorg = match self.last_tip_height {
            Some(last) => tip_height < last,
            None => false,
        };
        if reorg {
            self.utxos.clear();
            self.transactions.clear();
        }
        self.last_tip_height = Some(tip_height);
        reorg
    }

    fn utxo_position(&self, key: &Vec<String>, height: u64) -> (r: Option<usize>)
        ensures
            match r {
                Some(i) => i < self.spec_utxos().len() && utxo_key_is(
                    self.spec_utxos()[i as int],
                    texts(key@),
                    height,
                ),
                None => !exists|i: int|
                    0 <= i < self.spec_utxos().len() && utxo_key_is(
                        #[trigger] self.spec_utxos()[i],
                        texts(key@),
                        height,
                    ),
            },
    {
        let mut i: usize = 0;
        while i < self.utxos.len()
            invariant
                i <= self.utxos@.len(),
                forall|j: int|
                    0 <= j < i ==> !utxo_key_is(#[trigger] self.utxos@[j], texts(key@), height),
            decreases self.utxos@.len() - i,
        {
            if self.utxos[i].height == height && same_texts(&self.utxos[i].addresses, key) {
                return Some(i);
            }
            i = i + 1;
        }
        None
    }

    fn tx_position(&self, key: &Vec<String>, start: u64, end: u64) -> (r: Option<usize>)
        ensures
            match r {
                Some(i) => i < self.spec_transactions().len() && tx_key_is(
                    self.spec_transactions()[i as int],
                    texts(key@),
                    start,
                    end,
                ),
                None => !exists|i: int|
                    0 <= i < self.spec_transactions().len() && tx_key_is(
                        #[trigger] self.spec_transactions()[i],
                        texts(key@),
                        start,
                        end,
                    ),
            },
    {
        let mut i: usize = 0;
        while i < self.transactions.len()
            invariant
                i <= self.transactions@.len(),
                forall|j: int|
                    0 <= j < i ==> !tx_key_is(#[trigger] self.transactions@[j], texts(key@), start, end),
            decreases self.transactions@.len() - i,
        {
            let e = &self.transactions[i];
            if e.start_height == start && e.end_height == end && same_texts(&e.addresses, key) {
                return Some(i);
            }
            i = i + 1;
        }
        None
    }

    /// The outputs cached for a normalized address list at `height`.
    pub fn lookup_utxos(&self, key: &Vec<String>, height: u64) -> (r: Option<Vec<UtxoEntry>>)
        requires
            self.wf(),
        ensures
            match r {
                Some(v) => utxo_lookup(self.spec_utxos(), texts(key@), height) == Some(v@),
                None => utxo_lookup(self.spec_utxos(), texts(key@), height).is_none(),
            },
    {
        match self.utxo_position(key, height) {
            Some(i) => {
                let ghost es = self.spec_utxos();
                let ghost c = choose|c: int|
                    0 <= c < es.len() && utxo_key_is(#[trigger] es[c], texts(key@), height);
                assert(c == i as int) by {
                    if c != i as int {
                        assert(!utxo_key_is(es[c], texts(es[i as int].addresses@), es[i as int].height));
                    }
                }
                Some(copy_utxos(&self.utxos[i].utxos))
            },
            None => None,
        }
    }

    /// The activity cached for a normalized address list over `[start, end]`.
    pub fn lookup_activity(&self, key: &Vec<String>, start: u64, end: u64) -> (r: Option<TxActivity>)
        requires
            self.wf(),
        ensures
            r == tx_lookup(self.spec_transactions(), texts(key@), start, end),
    {
        match self.tx_position(key, start, end) {
            Some(i) => {
                let ghost es = self.spec_transactions();
                let ghost c = choose|c: int|
                    0 <= c < es.len() && tx_key_is(#[trigger] es[c], texts(key@), start, end);
                assert(c == i as int) by {
                    if c != i as int {
                        assert(!tx_key_is(
                            es[c],
                            texts(es[i as int].addresses@),
                            es[i as int].start_height,
                            es[i as int].end_height,
                        ));
                    }
                }
                Some(self.transactions[i].activity)
            },
            None => None,
        }
    }

    /// Caches the outputs found for a normalized address list at `height`,
    /// replacing what was cached for that key; other keys keep their results.
    pub fn store_utxos(&mut self, key: Vec<String>, height: u64, utxos: Vec<UtxoEntry>)
        requires
            old(self).wf(),
        ensures
            final(self).wf(),
            utxo_lookup(final(self).spec_utxos(), texts(key@), height) == Some(utxos@),
            forall|k: Seq<Seq<char>>, h: u64|
                !(k == texts(key@) && h == height) ==> #[trigger] utxo_lookup(
                    final(self).spec_utxos(),
                    k,
                    h,
                ) == utxo_lookup(old(self).spec_utxos(), k, h),
            final(self).spec_transactions() == old(self).spec_transactions(),
            final(self).spec_last_tip() == old(self).spec_last_tip(),
    {
        let ghost old_es = self.utxos@;
        let ghost nk = texts(key@);
        let pos = self.utxo_position(&key, height);
        let entry = UtxoCacheEntry { addresses: key, height, utxos };
        let ghost p: int;
        match pos {
            Some(i) => {
                self.utxos.set(i, entry);
                proof {
                    p = i as int;
                }
            },
            None => {
                self.utxos.push(entry);
                proof {
                    p = old_es.len() as int;
                }
            },
        }
        let ghost es = self.utxos@;
        assert(utxo_key_is(es[p], nk, height));
        assert forall|i: int| 0 <= i < es.len() && i != p implies es[i] == old_es[i] by {}
        assert(utxo_keys_unique(es)) by {
            assert forall|i: int, j: int|
                0 <= i < es.len() && 0 <= j < es.len() && i != j implies !utxo_key_is(
                #[trigger] es[i],
                texts(es[j].addresses@),
                (#[trigger] es[j]).height,
            ) by {
                if i != p && j != p {
                } else if i == p {
                    if pos.is_some() {
                        assert(!utxo_key_is(old_es[j], texts(old_es[p].addresses@), old_es[p].height));
                    }
                } else {
                    if pos.is_some() {
                        assert(!utxo_key_is(old_es[i], texts(old_es[p].addresses@), old_es[p].height));
                    }
                }
            }
        }
        proof {
            lemma_utxo_lookup_at(es, p, nk, height);
        }
        assert forall|k: Seq<Seq<char>>, h: u64|
            !(k == nk && h == height) implies #[trigger] utxo_lookup(es, k, h) == utxo_lookup(
            old_es,
            k,
            h,
        ) by {
            if exists|i: int| 0 <= i < old_es.len() && utxo_key_is(#[trigger] old_es[i], k, h) {
                let i = choose|i: int| 0 <= i < old_es.len() && utxo_key_is(#[trigger] old_es[i], k, h);
                assert(i != p);
                lemma_utxo_lookup_at(old_es, i, k, h);
                lemma_utxo_lookup_at(es, i, k, h);
            } else {
                assert forall|i: int| 0 <= i < es.len() implies !utxo_key_is(#[trigger] es[i], k, h) by {
                    if i != p {
                        assert(!utxo_key_is(old_es[i], k, h));
                    }
                }
            }
        }
    }

    /// Caches the activity found for a normalized address list over
    /// `[start, end]`, replacing what was cached for that key; other keys keep
    /// their results.
    pub fn store_activity(&mut self, key: Vec<String>, start: u64, end: u64, activity: TxActivity)
        requires
            old(self).wf(),
        ensures
            final(self).wf(),
            tx_lookup(final(self).spec_transactions(), texts(key@), start, end) == Some(activity),
            forall|k: Seq<Seq<char>>, s: u64, e: u64|
                !(k == texts(key@) && s == start && e == end) ==> #[trigger] tx_lookup(
                    final(self).spec_transactions(),
                    k,
                    s,
                    e,
                ) == tx_lookup(old(self).spec_transactions(), k, s, e),
            final(self).spec_utxos() == old(self).spec_utxos(),
            final(self).spec_last_tip() == old(self).spec_last_tip(),
    {
        let ghost old_es = self.transactions@;
        let ghost nk = texts(key@);
        let pos = self.tx_position(&key, start, end);
        let entry = TxCacheEntry { addresses: key, start_height: start, end_height: end, activity };
        let ghost p: int;
        match pos {
            Some(i) => {
                self.transactions.set(i, entry);
                proof {
                    p = i as int;
                }
            },
            None => {
                self.transactions.push(entry);
                proof {
                    p = old_es.len() as int;
                }
            },
        }
        let ghost es = self.transactions@;
        assert(tx_key_is(es[p], nk, start, end));
        assert forall|i: int| 0 <= i < es.len() && i != p implies es[i] == old_es[i] by {}
        assert(tx_keys_unique(es)) by {
            assert forall|i: int, j: int|
                0 <= i < es.len() && 0 <= j < es.len() && i != j implies !tx_key_is(
                #[trigger] es[i],
                texts(es[j].addresses@),
                (#[trigger] es[j]).start_height,
                es[j].end_height,
            ) by {
                if i != p && j != p {
                } else if i == p {
                    if pos.is_some() {
                        assert(!tx_key_is(
                            old_es[j],
                            texts(old_es[p].addresses@),
                            old_es[p].start_height,
                            old_es[p].end_height,
                        ));
                    }
                } else {
                    if pos.is_some() {
                        assert(!tx_key_is(
                            old_es[i],
                            texts(old_es[p].addresses@),
                            old_es[p].start_height,
                            old_es[p].end_height,
                        ));
                    }
                }
            }
        }
        proof {
            lemma_tx_lookup_at(es, p, nk, start, end);
        }
        assert forall|k: Seq<Seq<char>>, s: u64, e: u64|
            !(k == nk && s == start && e == end) implies #[trigger] tx_lookup(es, k, s, e)
            == tx_lookup(old_es, k, s, e) by {
            if exists|i: int| 0 <= i < old_es.len() && tx_key_is(#[trigger] old_es[i], k, s, e) {
                let i = choose|i: int| 0 <= i < old_es.len() && tx_key_is(#[trigger] old_es[i], k, s, e);
                assert(i != p);
                lemma_tx_lookup_at(old_es, i, k, s, e);
                lemma_tx_lookup_at(es, i, k, s, e);
            } else {
                assert forall|i: int| 0 <= i < es.len() implies !tx_key_is(#[trigger] es[i], k, s, e) by {
                    if i != p {
                        assert(!tx_key_is(old_es[i], k, s, e));
                    }
                }
            }
        }
    }

    /// First half of an output query at the observed tip height: records the
    /// tip (a lower one drops the cache), normalizes the addresses and looks
    /// them up. A miss hands back the key under which to store what the node
    /// returns. The flag tells whether the tip went down.
    pub fn begin_utxo_query(&mut self, addresses: &[String], tip_height: u64) -> (r: (
        CacheAnswer<Vec<UtxoEntry>>,
        bool,
    ))
        requires
            old(self).wf(),
        ensures
            final(self).wf(),
            r.1 == (old(self).spec_last_tip().is_some() && tip_height < old(self).spec_last_tip().unwrap()),
            r.1 ==> final(self).spec_utxos().len() == 0 && final(self).spec_transactions().len() == 0,
            !r.1 ==> final(self).spec_utxos() == old(self).spec_utxos()
                && final(self).spec_transactions() == old(self).spec_transactions(),
            final(self).spec_last_tip() == Some(tip_height),
            match r.0 {
                CacheAnswer::Hit(v) => exists|k: Seq<Seq<char>>|
                    is_normal_form(k, texts(addresses@)) && #[trigger] utxo_lookup(
                        final(self).spec_utxos(),
                        k,
                        tip_height,
                    ) == Some(v@),
                CacheAnswer::Miss(k) => is_normal_form(texts(k@), texts(addresses@)) && utxo_lookup(
                    final(self).spec_utxos(),
                    texts(k@),
                    tip_height,
                ).is_none(),
            },
    {
        let reorg = self.observe_tip(tip_height);
        let key = normalized_addresses(addresses);
        match self.lookup_utxos(&key, tip_height) {
            Some(v) => (CacheAnswer::Hit(v), reorg),
            None => (CacheAnswer::Miss(key), reorg),
        }
    }

    /// First half of an activity query over `[start_height, end_height]` at
    /// the observed tip height: an inverted range is refused with nothing
    /// changed; otherwise the tip is recorded (a lower one drops the cache)
    /// and the normalized addresses are looked up.
    pub fn begin_activity_query(
        &mut self,
        addresses: &[String],
        tip_height: u64,
        start_height: u64,
        end_height: u64,
    ) -> (r:
        Result<(CacheAnswer<TxActivity>, bool), VelocityError>)
        requires
            old(self).wf(),
        ensures
            final(self).wf(),
            end_height < start_height ==> r.is_err() && r.unwrap_err().kind()
                == VelocityErrorKind::InvalidData && *final(self) == *old(self),
            match r {
                Err(_) => end_height < start_height,
                Ok((answer, reorg)) => {
                    &&& reorg == (old(self).spec_last_tip().is_some() && tip_height < old(self).spec_last_tip().unwrap())
                    &&& reorg ==> final(self).spec_utxos().len() == 0 && final(self).spec_transactions().len() == 0
                    &&& !reorg ==> final(self).spec_utxos() == old(self).spec_utxos()
                        && final(self).spec_transactions() == old(self).spec_transactions()
                    &&& final(self).spec_last_tip() == Some(tip_height)
                    &&& match answer {
                        CacheAnswer::Hit(a) => exists|k: Seq<Seq<char>>|
                            is_normal_form(k, texts(addresses@)) && #[trigger] tx_lookup(
                                final(self).spec_transactions(),
                                k,
                                start_height,
                                end_height,
                            ) == Some(a),
                        CacheAnswer::Miss(k) => is_normal_form(texts(k@), texts(addresses@))
                            && tx_lookup(
                            final(self).spec_transactions(),
                            texts(k@),
                            start_height,
                            end_height,
                        ).is_none(),
                    }
                },
            },
    {
        if end_height < start_height {
            return Err(
                VelocityError::InvalidData("end_height cannot be less than start_height".to_owned()),
            );
        }
        let reorg = self.observe_tip(tip_height);
        let key = normalized_addresses(addresses);
        match self.lookup_activity(&key, start_height, end_height) {
            Some(a) => Ok((CacheAnswer::Hit(a), reorg)),
            None => Ok((CacheAnswer::Miss(key), reorg)),
        }
    }
}

/// A copy of the outputs.
pub fn copy_utxos(v: &Vec<UtxoEntry>) -> (r: Vec<UtxoEntry>)
    ensures
        r@ == v@,
{
    let mut out: Vec<UtxoEntry> = Vec::new();
    let mut i: usize = 0;
    while i < v.len()
        invariant
            i <= v@.len(),
            out@ == v@.take(i as int),
        decreases v@.len() - i,
    {
        out.push(v[i]);
        i = i + 1;
        assert(out@ =~= v@.take(i as int));
    }
    assert(v@.take(v@.len() as int) == v@);
    out
}

} // verus!
