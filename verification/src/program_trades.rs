//! Trades grouped by the program they came from.

use vstd::prelude::*;
use crate::assoc::{
    assoc_map, lemma_assoc_dom, lemma_assoc_len, lemma_assoc_lookup, lemma_assoc_map_values,
    lemma_assoc_push, lemma_assoc_update, lemma_push_no_duplicates,
};
use crate::types::{TradeEvent, TradeEventView, trade_views};
use crate::windows::{lemma_trade_views_push, recent, retain_recent};

verus! {

/// The trades of one source program, in order of arrival.
#[derive(Debug)]
pub struct ProgramTrades {
    pub program: String,
    pub trades: Vec<TradeEvent>,
}

/// A map from source program to its trades, kept as a list in which no
/// program occurs twice. A lookup walks the list, which holds one entry for
/// each program that traded the token.
#[derive(Debug)]
pub struct ProgramTradesMap {
    pub entries: Vec<ProgramTrades>,
}

/// The programs of a list of entries, in order.
pub open spec fn program_keys(entries: Seq<ProgramTrades>) -> Seq<Seq<char>> {
    entries.map_values(|e: ProgramTrades| e.program@)
}

/// The trade sequences of a list of entries, in order.
pub open spec fn program_values(entries: Seq<ProgramTrades>) -> Seq<Seq<TradeEventView>> {
    entries.map_values(|e: ProgramTrades| trade_views(e.trades@))
}

/// The trades on record for `program`, none where it is unknown.
pub open spec fn trades_of(
    map: Map<Seq<char>, Seq<TradeEventView>>,
    program: Seq<char>,
) -> Seq<TradeEventView> {
    if map.dom().contains(program) {
        map[program]
    } else {
        Seq::empty()
    }
}

/// Every program keeps only its trades at `cutoff` or later.
pub open spec fn recent_by_program(
    map: Map<Seq<char>, Seq<TradeEventView>>,
    cutoff: int,
) -> Map<Seq<char>, Seq<TradeEventView>> {
    map.map_values(|trades: Seq<TradeEventView>| recent(trades, cutoff))
}

impl View for ProgramTradesMap {
    type V = Map<Seq<char>, Seq<TradeEventView>>;

    open spec fn view(&self) -> Map<Seq<char>, Seq<TradeEventView>> {
        assoc_map(program_keys(self.entries@), program_values(self.entries@))
    }
}

impl ProgramTradesMap {
    /// No program occurs twice.
    pub open spec fn wf(&self) -> bool {
        program_keys(self.entries@).no_duplicates()
    }

    pub fn new() -> (res: Self)
        ensures
            res.wf(),
            res@ == Map::<Seq<char>, Seq<TradeEventView>>::empty(),
    {
        let res = ProgramTradesMap { entries: Vec::new() };
        assert(program_keys(res.entries@) =~= Seq::<Seq<char>>::empty());
        res
    }

    /// Number of programs on record.
    pub fn len(&self) -> (n: usize)
        requires
            self.wf(),
        ensures
            self@.dom().finite(),
            n == self@.dom().len(),
    {
        proof {
            lemma_assoc_len(program_keys(self.entries@), program_values(self.entries@));
        }
        self.entries.len()
    }

    /// Position of `program` in the list, if it is on record.
    fn position(&self, program: &String) -> (res: Option<usize>)
        ensures
            match res {
                Some(i) => i < self.entries.len() && self.entries[i as int].program@ == program@,
                None => !self@.dom().contains(program@),
            },
    {
        let n = self.entries.len();
        let mut i: usize = 0;
        while i < n
            invariant
                n == self.entries.len(),
                i <= n,
                forall|j: int| 0 <= j < i ==> (#[trigger] self.entries[j]).program@ != program@,
            decreases n - i,
        {
            if self.entries[i].program == *program {
                return Some(i);
            }
            i = i + 1;
        }
        proof {
            lemma_assoc_dom(program_keys(self.entries@), program_values(self.entries@));
            if program_keys(self.entries@).contains(program@) {
                let j = choose|j: int|
                    0 <= j < program_keys(self.entries@).len() && program_keys(self.entries@)[j]
                        == program@;
                assert(self.entries[j].program@ == program@);
            }
        }
        None
    }

    /// Whether `program` is on record.
    pub fn contains_key(&self, program: &str) -> (found: bool)
        ensures
            found == self@.dom().contains(program@),
    {
        let owned = program.to_owned();
        match self.position(&owned) {
            Some(i) => {
                proof {
                    lemma_assoc_dom(program_keys(self.entries@), program_values(self.entries@));
                    assert(program_keys(self.entries@)[i as int] == program@);
                }
                true
            },
            None => false,
        }
    }

    /// Number of trades on record for `program`, zero where it is unknown.
    pub fn trade_count(&self, program: &str) -> (n: usize)
        requires
            self.wf(),
        ensures
            n == trades_of(self@, program@).len(),
    {
        let owned = program.to_owned();
        match self.position(&owned) {
            Some(i) => {
                proof {
                    lemma_assoc_lookup(
                        program_keys(self.entries@),
                        program_values(self.entries@),
                        i as int,
                    );
                }
                self.entries[i].trades.len()
            },
            None => 0,
        }
    }

    /// Appends `trade` to the trades of `program`, which is put on record if
    /// it was not.
    pub fn append(&mut self, program: &String, trade: TradeEvent)
        requires
            old(self).wf(),
        ensures
            final(self).wf(),
            final(self)@ == old(self)@.insert(
                program@,
                trades_of(old(self)@, program@).push(trade@),
            ),
    {
        let ghost before = self.entries@;
        match self.position(program) {
            Some(i) => {
                proof {
                    lemma_assoc_lookup(program_keys(before), program_values(before), i as int);
                }
                self.entries[i].trades.push(trade);
                proof {
                    let after = self.entries@;
                    lemma_trade_views_push(before[i as int].trades@, trade);
                    assert(program_keys(after) =~= program_keys(before));
                    assert(program_values(after) =~= program_values(before).update(
                        i as int,
                        trade_views(after[i as int].trades@),
                    ));
                    lemma_assoc_update(
                        program_keys(before),
                        program_values(before),
                        i as int,
                        trade_views(after[i as int].trades@),
                    );
                }
            },
            None => {
                let mut trades: Vec<TradeEvent> = Vec::new();
                trades.push(trade);
                let entry = ProgramTrades { program: program.clone(), trades };
                self.entries.push(entry);
                proof {
                    lemma_trade_views_push(Seq::<TradeEvent>::empty(), trade);
                    assert(trade_views(Seq::<TradeEvent>::empty()) =~= Seq::<
                        TradeEventView,
                    >::empty());
                    lemma_assoc_dom(program_keys(before), program_values(before));
                    assert(program_keys(self.entries@) =~= program_keys(before).push(program@));
                    assert(program_values(self.entries@) =~= program_values(before).push(
                        trade_views(entry.trades@),
                    ));
                    lemma_push_no_duplicates(program_keys(before), program@);
                    lemma_assoc_push(
                        program_keys(before),
                        program_values(before),
                        program@,
                        trade_views(entry.trades@),
                    );
                }
            },
        }
    }

    /// Drops, for every program, the trades older than `cutoff`. Programs
    /// stay on record even when none of their trades is left.
    pub fn retain_recent(&mut self, cutoff: i64)
        requires
            old(self).wf(),
        ensures
            final(self).wf(),
            final(self)@ == recent_by_program(old(self)@, cutoff as int),
    {
        let ghost before = self.entries@;
        let n = self.entries.len();
        let mut i: usize = 0;
        while i < n
            invariant
                n == before.len(),
                self.entries@.len() == n,
                i <= n,
                program_keys(self.entries@) == program_keys(before),
                forall|j: int|
                    0 <= j < i ==> #[trigger] program_values(self.entries@)[j] == recent(
                        program_values(before)[j],
                        cutoff as int,
                    ),
                forall|j: int| i <= j < n ==> #[trigger] self.entries@[j] == before[j],
            decreases n - i,
        {
            let ghost prev = self.entries@;
            retain_recent(&mut self.entries[i].trades, cutoff);
            proof {
                let now = self.entries@;
                assert(program_keys(now) =~= program_keys(prev));
                assert forall|j: int| 0 <= j < i + 1 implies #[trigger] program_values(now)[j]
                    == recent(program_values(before)[j], cutoff as int) by {
                    if j < i {
                        assert(program_values(prev)[j] == recent(
                            program_values(before)[j],
                            cutoff as int,
                        ));
                        assert(now[j] == prev[j]);
                    }
                }
            }
            i = i + 1;
        }
        proof {
            let f = |trades: Seq<TradeEventView>| recent(trades, cutoff as int);
            assert(program_values(self.entries@) =~= program_values(before).map_values(f));
            lemma_assoc_map_values(program_keys(before), program_values(before), f);
        }
    }
}

} // verus!
