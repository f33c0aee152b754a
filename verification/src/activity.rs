//! Per-wallet trade activity inside the shortest window, the input of the
//! online bot classification.

use vstd::prelude::*;
use crate::assoc::{
    assoc_map, lemma_assoc_dom, lemma_assoc_len, lemma_assoc_lookup, lemma_assoc_push,
    lemma_assoc_update, lemma_push_no_duplicates,
};
use crate::sequences::{lemma_filter_prepend, lemma_filter_push, move_reversed};

verus! {

/// How often a wallet traded lately, and when it last did.
#[derive(Debug)]
pub struct WalletActivity {
    pub wallet: String,
    pub trade_count: i32,
    pub last_trade_ts: i64,
}

/// What is on record of a wallet: the value under which the map holds it.
pub struct ActivityView {
    pub trade_count: int,
    pub last_trade_ts: int,
}

/// Mathematical value of a [`WalletActivity`]: the wallet with what is on
/// record of it.
pub struct WalletActivityView {
    pub wallet: Seq<char>,
    pub activity: ActivityView,
}

impl View for WalletActivity {
    type V = WalletActivityView;

    open spec fn view(&self) -> WalletActivityView {
        WalletActivityView {
            wallet: self.wallet@,
            activity: ActivityView {
                trade_count: self.trade_count as int,
                last_trade_ts: self.last_trade_ts as int,
            },
        }
    }
}

/// A map from wallet to its activity, kept as a list in which no wallet
/// occurs twice. A lookup walks the list, which holds only the wallets that
/// traded within the shortest window.
#[derive(Debug)]
pub struct WalletActivityMap {
    pub entries: Vec<WalletActivity>,
}

/// The wallets of a list of entries, in order.
pub open spec fn activity_keys(entries: Seq<WalletActivity>) -> Seq<Seq<char>> {
    entries.map_values(|e: WalletActivity| e@.wallet)
}

/// The activity values of a list of entries, in order.
pub open spec fn activity_values(entries: Seq<WalletActivity>) -> Seq<ActivityView> {
    entries.map_values(|e: WalletActivity| e@.activity)
}

/// The map that a list of entries stands for.
pub open spec fn activity_map(entries: Seq<WalletActivity>) -> Map<Seq<char>, ActivityView> {
    assoc_map(activity_keys(entries), activity_values(entries))
}

/// The trade count on record for `wallet`, zero where there is none.
pub open spec fn activity_count(map: Map<Seq<char>, ActivityView>, wallet: Seq<char>) -> int {
    if map.dom().contains(wallet) {
        map[wallet].trade_count
    } else {
        0
    }
}

/// The entries of `map` whose wallet last traded at `cutoff` or later.
pub open spec fn active_since(map: Map<Seq<char>, ActivityView>, cutoff: int) -> Map<
    Seq<char>,
    ActivityView,
> {
    Map::new(
        |w: Seq<char>| map.dom().contains(w) && map[w].last_trade_ts >= cutoff,
        |w: Seq<char>| map[w],
    )
}

/// The entries that last traded at `cutoff` or later, in their old order.
pub open spec fn still_active(entries: Seq<WalletActivity>, cutoff: int) -> Seq<WalletActivity> {
    entries.filter(|e: WalletActivity| e.last_trade_ts >= cutoff)
}

proof fn lemma_still_active(entries: Seq<WalletActivity>, cutoff: int)
    requires
        activity_keys(entries).no_duplicates(),
    ensures
        activity_keys(still_active(entries, cutoff)).no_duplicates(),
        activity_map(still_active(entries, cutoff)) == active_since(activity_map(entries), cutoff),
        forall|w: Seq<char>| #[trigger]
            activity_keys(still_active(entries, cutoff)).contains(w) ==> activity_keys(
                entries,
            ).contains(w),
    decreases entries.len(),
{
    let p = |e: WalletActivity| e.last_trade_ts >= cutoff;
    if entries.len() == 0 {
        reveal(Seq::filter);
        assert(still_active(entries, cutoff) =~= Seq::<WalletActivity>::empty());
        assert(activity_map(still_active(entries, cutoff)) =~= active_since(
            activity_map(entries),
            cutoff,
        ));
    } else {
        let init = entries.drop_last();
        let last = entries.last();
        let kept = still_active(init, cutoff);
        assert(init.push(last) =~= entries);
        assert(activity_keys(init) =~= activity_keys(entries).drop_last());
        assert(activity_values(init) =~= activity_values(entries).drop_last());
        assert(activity_keys(entries) =~= activity_keys(init).push(last.wallet@));
        assert(activity_values(entries) =~= activity_values(init).push(last@.activity));
        assert(activity_keys(init).no_duplicates());
        lemma_still_active(init, cutoff);
        lemma_filter_push(init, last, p);
        lemma_assoc_push(activity_keys(init), activity_values(init), last.wallet@, last@.activity);
        lemma_assoc_dom(activity_keys(init), activity_values(init));
        assert(!activity_keys(init).contains(last.wallet@)) by {
            if activity_keys(init).contains(last.wallet@) {
                let i = choose|i: int|
                    0 <= i < activity_keys(init).len() && activity_keys(init)[i] == last.wallet@;
                assert(activity_keys(entries)[i] == activity_keys(entries)[entries.len() - 1]);
            }
        }
        if p(last) {
            assert(activity_keys(kept.push(last)) =~= activity_keys(kept).push(last.wallet@));
            assert(activity_values(kept.push(last)) =~= activity_values(kept).push(last@.activity));
            lemma_push_no_duplicates(activity_keys(kept), last.wallet@);
            lemma_assoc_push(activity_keys(kept), activity_values(kept), last.wallet@, last@.activity);
            assert forall|w: Seq<char>|
                activity_keys(still_active(entries, cutoff)).contains(w) implies activity_keys(
                entries,
            ).contains(w) by {
                let i = choose|i: int|
                    0 <= i < activity_keys(kept.push(last)).len() && activity_keys(
                        kept.push(last),
                    )[i] == w;
                if i < kept.len() {
                    assert(activity_keys(kept)[i] == w);
                    assert(activity_keys(kept).contains(w));
                    let j = choose|j: int|
                        0 <= j < activity_keys(init).len() && activity_keys(init)[j] == w;
                    assert(activity_keys(entries)[j] == w);
                } else {
                    assert(activity_keys(entries)[entries.len() - 1] == w);
                }
            }
        } else {
            assert forall|w: Seq<char>|
                activity_keys(still_active(entries, cutoff)).contains(w) implies activity_keys(
                entries,
            ).contains(w) by {
                assert(activity_keys(kept).contains(w));
                let j = choose|j: int|
                    0 <= j < activity_keys(init).len() && activity_keys(init)[j] == w;
                assert(activity_keys(entries)[j] == w);
            }
        }
        assert(activity_map(still_active(entries, cutoff)) =~= active_since(
            activity_map(entries),
            cutoff,
        ));
    }
}

impl View for WalletActivityMap {
    type V = Map<Seq<char>, ActivityView>;

    open spec fn view(&self) -> Map<Seq<char>, ActivityView> {
        activity_map(self.entries@)
    }
}

impl WalletActivityMap {
    /// No wallet occurs twice.
    pub open spec fn wf(&self) -> bool {
        activity_keys(self.entries@).no_duplicates()
    }

    pub fn new() -> (res: Self)
        ensures
            res.wf(),
            res@ == Map::<Seq<char>, ActivityView>::empty(),
    {
        let res = WalletActivityMap { entries: Vec::new() };
        assert(activity_keys(res.entries@) =~= Seq::<Seq<char>>::empty());
        res
    }

    /// Number of wallets on record.
    pub fn len(&self) -> (n: usize)
        requires
            self.wf(),
        ensures
            self@.dom().finite(),
            n == self@.dom().len(),
    {
        proof {
            lemma_assoc_len(activity_keys(self.entries@), activity_values(self.entries@));
        }
        self.entries.len()
    }

    /// Position of `wallet` in the list, if it is on record.
    fn position(&self, wallet: &String) -> (res: Option<usize>)
        ensures
            match res {
                Some(i) => i < self.entries.len() && self.entries[i as int].wallet@ == wallet@,
                None => !self@.dom().contains(wallet@),
            },
    {
        let n = self.entries.len();
        let mut i: usize = 0;
        while i < n
            invariant
                n == self.entries.len(),
                i <= n,
                forall|j: int| 0 <= j < i ==> (#[trigger] self.entries[j]).wallet@ != wallet@,
            decreases n - i,
        {
            if self.entries[i].wallet == *wallet {
                return Some(i);
            }
            i = i + 1;
        }
        proof {
            lemma_assoc_dom(activity_keys(self.entries@), activity_values(self.entries@));
            if activity_keys(self.entries@).contains(wallet@) {
                let j = choose|j: int|
                    0 <= j < activity_keys(self.entries@).len() && activity_keys(self.entries@)[j]
                        == wallet@;
                assert(self.entries[j].wallet@ == wallet@);
            }
        }
        None
    }

    /// Whether `wallet` is on record.
    pub fn contains_key(&self, wallet: &str) -> (found: bool)
        ensures
            found == self@.dom().contains(wallet@),
    {
        let owned = wallet.to_owned();
        match self.position(&owned) {
            Some(i) => {
                proof {
                    lemma_assoc_dom(activity_keys(self.entries@), activity_values(self.entries@));
                    assert(activity_keys(self.entries@)[i as int] == wallet@);
                }
                true
            },
            None => false,
        }
    }

    /// The trade count and last trade time on record for `wallet`.
    pub fn get(&self, wallet: &str) -> (res: Option<(i32, i64)>)
        requires
            self.wf(),
        ensures
            match res {
                Some((count, ts)) => self@.dom().contains(wallet@) && self@[wallet@].trade_count
                    == count && self@[wallet@].last_trade_ts == ts,
                None => !self@.dom().contains(wallet@),
            },
    {
        let owned = wallet.to_owned();
        match self.position(&owned) {
            Some(i) => {
                proof {
                    lemma_assoc_lookup(
                        activity_keys(self.entries@),
                        activity_values(self.entries@),
                        i as int,
                    );
                }
                Some((self.entries[i].trade_count, self.entries[i].last_trade_ts))
            },
            None => None,
        }
    }

    /// The trade count on record for `wallet`, zero where there is none.
    pub fn count_of(&self, wallet: &String) -> (count: i32)
        requires
            self.wf(),
        ensures
            count == activity_count(self@, wallet@),
    {
        match self.position(wallet) {
            Some(i) => {
                proof {
                    lemma_assoc_lookup(
                        activity_keys(self.entries@),
                        activity_values(self.entries@),
                        i as int,
                    );
                }
                self.entries[i].trade_count
            },
            None => 0,
        }
    }

    /// Counts one more trade of `wallet` at `timestamp` and returns the new
    /// count; a wallet not yet on record starts at one.
    pub fn record(&mut self, wallet: &String, timestamp: i64) -> (count: i32)
        requires
            old(self).wf(),
            activity_count(old(self)@, wallet@) < i32::MAX,
        ensures
            final(self).wf(),
            count == activity_count(old(self)@, wallet@) + 1,
            final(self)@ == old(self)@.insert(
                wallet@,
                ActivityView { trade_count: count as int, last_trade_ts: timestamp as int },
            ),
    {
        let ghost before = self.entries@;
        match self.position(wallet) {
            Some(i) => {
                proof {
                    lemma_assoc_lookup(activity_keys(before), activity_values(before), i as int);
                }
                let count = self.entries[i].trade_count + 1;
                self.entries[i].trade_count = count;
                self.entries[i].last_trade_ts = timestamp;
                proof {
                    let after = self.entries@;
                    assert(activity_keys(after) =~= activity_keys(before));
                    assert(activity_values(after) =~= activity_values(before).update(
                        i as int,
                        after[i as int]@.activity,
                    ));
                    lemma_assoc_update(
                        activity_keys(before),
                        activity_values(before),
                        i as int,
                        after[i as int]@.activity,
                    );
                }
                count
            },
            None => {
                let entry = WalletActivity {
                    wallet: wallet.clone(),
                    trade_count: 1,
                    last_trade_ts: timestamp,
                };
                self.entries.push(entry);
                proof {
                    lemma_assoc_dom(activity_keys(before), activity_values(before));
                    assert(activity_keys(self.entries@) =~= activity_keys(before).push(wallet@));
                    assert(activity_values(self.entries@) =~= activity_values(before).push(entry@.activity));
                    lemma_push_no_duplicates(activity_keys(before), wallet@);
                    lemma_assoc_push(
                        activity_keys(before),
                        activity_values(before),
                        wallet@,
                        entry@.activity,
                    );
                }
                1
            },
        }
    }

    /// Drops every wallet whose last trade is older than `cutoff`.
    pub fn retain_since(&mut self, cutoff: i64)
        requires
            old(self).wf(),
        ensures
            final(self).wf(),
            final(self)@ == active_since(old(self)@, cutoff as int),
    {
        let ghost before = self.entries@;
        let ghost p = |e: WalletActivity| e.last_trade_ts >= cutoff as int;
        let mut kept_rev: Vec<WalletActivity> = Vec::new();
        proof {
            assert(before.take(before.len() as int) =~= before);
            assert(before.skip(before.len() as int) =~= Seq::<WalletActivity>::empty());
            reveal(Seq::filter);
            assert(kept_rev@ =~= still_active(before.skip(before.len() as int), cutoff as int).reverse());
        }
        while self.entries.len() > 0
            invariant
                self.entries@.len() <= before.len(),
                self.entries@ == before.take(self.entries@.len() as int),
                kept_rev@ == still_active(
                    before.skip(self.entries@.len() as int),
                    cutoff as int,
                ).reverse(),
            decreases self.entries.len(),
        {
            let ghost k = self.entries@.len() as int;
            let entry = self.entries.pop().unwrap();
            proof {
                assert(self.entries@ =~= before.take(k - 1));
                assert(before.skip(k - 1) =~= seq![before[k - 1]] + before.skip(k));
                lemma_filter_prepend(
                    before[k - 1],
                    before.skip(k),
                    |e: WalletActivity| e.last_trade_ts >= cutoff as int,
                );
            }
            if entry.last_trade_ts >= cutoff {
                let ghost tail = still_active(before.skip(k), cutoff as int);
                kept_rev.push(entry);
                proof {
                    assert(kept_rev@ =~= (seq![entry] + tail).reverse());
                }
            }
        }
        move_reversed(&mut kept_rev, &mut self.entries);
        proof {
            assert(before.skip(0) =~= before);
            let target = still_active(before, cutoff as int);
            assert(self.entries@ =~= target.reverse().reverse());
            assert(target.reverse().reverse() =~= target);
            lemma_still_active(before, cutoff as int);
        }
    }
}

} // verus!
