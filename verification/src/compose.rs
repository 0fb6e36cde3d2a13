use vstd::prelude::*;

verus! {

/// One entry of a compose table: feeding `keys` in order, starting from
/// an idle machine, resolves to the single symbol `result`.
#[derive(Clone, Debug)]
pub struct ComposeSequence {
    pub keys: Vec<u32>,
    pub result: u32,
}

/// The mathematical shape of a compose-table entry.
#[verifier::ext_equal]
pub ghost struct ComposeSequenceModel {
    pub keys: Seq<u32>,
    pub result: u32,
}

impl View for ComposeSequence {
    type V = ComposeSequenceModel;

    open spec fn view(&self) -> ComposeSequenceModel {
        ComposeSequenceModel { keys: self.keys@, result: self.result }
    }
}

/// A compose table: the dead-key/accent sequences in effect for a
/// session.  The surrounding program derives it from the process locale
/// at bootstrap.
#[derive(Clone, Debug)]
pub struct ComposeTable {
    pub sequences: Vec<ComposeSequence>,
}

impl View for ComposeTable {
    type V = Seq<ComposeSequenceModel>;

    open spec fn view(&self) -> Seq<ComposeSequenceModel> {
        self.sequences@.map_values(|e: ComposeSequence| e@)
    }
}

/// The four states of the compose machine.
#[derive(Clone, Copy, Debug, PartialEq, Eq, Structural)]
pub enum ComposeStatus {
    /// Idle: symbols pass through the machine unchanged.
    Nothing,
    /// Mid-sequence: the fed symbols are being swallowed.
    Composing,
    /// A sequence just completed; its result is available once.
    Composed,
    /// A sequence was aborted; the press that aborted it is swallowed.
    Cancelled,
}

/// The result, if any, of the table entry whose keys equal `s`, searching
/// from entry `i` on; entries earlier in the table win.
pub open spec fn spec_lookup_from(table: Seq<ComposeSequenceModel>, s: Seq<u32>, i: int) -> Option<
    u32,
>
    decreases table.len() - i,
{
    if i < 0 || i >= table.len() {
        None
    } else if table[i].keys == s {
        Some(table[i].result)
    } else {
        spec_lookup_from(table, s, i + 1)
    }
}

/// The result, if any, of the first table entry whose keys equal `s`.
pub open spec fn spec_lookup(table: Seq<ComposeSequenceModel>, s: Seq<u32>) -> Option<u32> {
    spec_lookup_from(table, s, 0)
}

/// A completed lookup names an entry of the table.
pub proof fn lemma_lookup_some_is_entry(table: Seq<ComposeSequenceModel>, s: Seq<u32>, i: int)
    requires
        0 <= i <= table.len(),
        spec_lookup_from(table, s, i) is Some,
    ensures
        exists|k: int| i <= k < table.len() && table[k].keys == s,
    decreases table.len() - i,
{
    if i < table.len() {
        if table[i].keys == s {
        } else {
            lemma_lookup_some_is_entry(table, s, i + 1);
        }
    }
}

/// True when `s` is a proper prefix of some entry of the table: feeding
/// one more suitable symbol could still complete a sequence.
pub open spec fn spec_is_sequence_prefix(table: Seq<ComposeSequenceModel>, s: Seq<u32>) -> bool {
    exists|i: int|
        0 <= i < table.len() && s.len() < table[i].keys.len() && table[i].keys.subrange(
            0,
            s.len() as int,
        ) == s
}

/// The mathematical state of the compose machine: the table, the machine
/// state, the symbols of the sequence in flight, and the completed
/// result, if one is pending retrieval.
#[verifier::ext_equal]
pub ghost struct ComposeModel {
    pub table: Seq<ComposeSequenceModel>,
    pub status: ComposeStatus,
    pub pending: Seq<u32>,
    pub result: Option<u32>,
}

impl ComposeModel {
    /// The sequence a fed symbol extends: the symbols in flight while
    /// composing, and nothing otherwise.
    pub open spec fn base(self) -> Seq<u32> {
        if self.status is Composing {
            self.pending
        } else {
            Seq::<u32>::empty()
        }
    }

    /// The machine after one symbol is fed.  A completed entry wins over
    /// everything; a proper prefix of an entry keeps the machine (or
    /// puts it) mid-sequence; a symbol that starts nothing passes an
    /// idle machine through; anything else aborts the sequence in
    /// flight.
    pub open spec fn feed_transition(self, sym: u32) -> ComposeModel {
        let cand = self.base().push(sym);
        if spec_lookup(self.table, cand) is Some {
            ComposeModel {
                status: ComposeStatus::Composed,
                pending: Seq::<u32>::empty(),
                result: spec_lookup(self.table, cand),
                ..self
            }
        } else if spec_is_sequence_prefix(self.table, cand) {
            ComposeModel {
                status: ComposeStatus::Composing,
                pending: cand,
                result: None,
                ..self
            }
        } else if cand.len() == 1 {
            ComposeModel {
                status: ComposeStatus::Nothing,
                pending: Seq::<u32>::empty(),
                result: None,
                ..self
            }
        } else {
            ComposeModel {
                status: ComposeStatus::Cancelled,
                pending: Seq::<u32>::empty(),
                result: None,
                ..self
            }
        }
    }

    /// The machine after a reset: idle, with no sequence in flight and
    /// no result, over the same table.
    pub open spec fn reset_transition(self) -> ComposeModel {
        ComposeModel {
            status: ComposeStatus::Nothing,
            pending: Seq::<u32>::empty(),
            result: None,
            ..self
        }
    }
}

/// The dead-key/accent compose machine.  Exactly one resolved symbol is
/// fed per key press; key releases never touch it.
#[derive(Clone, Debug)]
pub struct ComposeStateMachine {
    table: ComposeTable,
    status: ComposeStatus,
    pending: Vec<u32>,
    result: Option<u32>,
}

impl View for ComposeStateMachine {
    type V = ComposeModel;

    closed spec fn view(&self) -> ComposeModel {
        ComposeModel {
            table: self.table@,
            status: self.status,
            pending: self.pending@,
            result: self.result,
        }
    }
}

/// True when the keys of `a` hold exactly the symbols `b`.
fn keys_equal(a: &Vec<u32>, b: &Vec<u32>) -> (r: bool)
    ensures
        r == (a@ == b@),
{
    if a.len() != b.len() {
        return false;
    }
    let mut i: usize = 0;
    while i < a.len()
        invariant
            i <= a@.len(),
            a@.len() == b@.len(),
            forall|j: int| 0 <= j < i ==> a@[j] == b@[j],
        decreases a@.len() - i,
    {
        if a[i] != b[i] {
            proof {
                assert(a@[i as int] != b@[i as int]);
            }
            return false;
        }
        i = i + 1;
    }
    proof {
        assert(a@ =~= b@);
    }
    true
}

/// True when `s` is a proper prefix of `keys`.
fn is_proper_prefix_of(s: &Vec<u32>, keys: &Vec<u32>) -> (r: bool)
    ensures
        r == (s@.len() < keys@.len() && keys@.subrange(0, s@.len() as int) == s@),
{
    if s.len() >= keys.len() {
        return false;
    }
    let mut i: usize = 0;
    while i < s.len()
        invariant
            i <= s@.len(),
            s@.len() < keys@.len(),
            forall|j: int| 0 <= j < i ==> keys@[j] == s@[j],
        decreases s@.len() - i,
    {
        if keys[i] != s[i] {
            proof {
                assert(keys@.subrange(0, s@.len() as int)[i as int] != s@[i as int]);
            }
            return false;
        }
        i = i + 1;
    }
    proof {
        assert(keys@.subrange(0, s@.len() as int) =~= s@);
    }
    true
}

/// The result of the first table entry whose keys equal `s`, searching
/// from entry `i` on.
fn lookup_from(table: &ComposeTable, s: &Vec<u32>, i: usize) -> (r: Option<u32>)
    requires
        i <= table.sequences@.len(),
    ensures
        r == spec_lookup_from(table@, s@, i as int),
    decreases table.sequences@.len() - i,
{
    if i == table.sequences.len() {
        None
    } else if keys_equal(&table.sequences[i].keys, s) {
        Some(table.sequences[i].result)
    } else {
        lookup_from(table, s, i + 1)
    }
}

/// True when `s` is a proper prefix of some entry of the table.
fn is_sequence_prefix(table: &ComposeTable, s: &Vec<u32>) -> (r: bool)
    ensures
        r == spec_is_sequence_prefix(table@, s@),
{
    let mut i: usize = 0;
    while i < table.sequences.len()
        invariant
            i <= table.sequences@.len(),
            forall|j: int|
                0 <= j < i ==> !(s@.len() < table@[j].keys.len() && table@[j].keys.subrange(
                    0,
                    s@.len() as int,
                ) == s@),
        decreases table.sequences@.len() - i,
    {
        if is_proper_prefix_of(s, &table.sequences[i].keys) {
            proof {
                assert(s@.len() < table@[i as int].keys.len() && table@[i as int].keys.subrange(
                    0,
                    s@.len() as int,
                ) == s@);
            }
            return true;
        }
        i = i + 1;
    }
    false
}

impl ComposeStateMachine {
    /// A fresh, idle machine over the given table.
    pub fn new(table: ComposeTable) -> (m: ComposeStateMachine)
        ensures
            m@ == (ComposeModel {
                table: table@,
                status: ComposeStatus::Nothing,
                pending: Seq::<u32>::empty(),
                result: None,
            }),
    {
        let m = ComposeStateMachine {
            table,
            status: ComposeStatus::Nothing,
            pending: Vec::new(),
            result: None,
        };
        proof {
            assert(m@ =~= (ComposeModel {
                table: m.table@,
                status: ComposeStatus::Nothing,
                pending: Seq::<u32>::empty(),
                result: None,
            }));
        }
        m
    }

    /// The machine's current state.
    pub fn status(&self) -> (r: ComposeStatus)
        ensures
            r == self@.status,
    {
        self.status
    }

    /// The completed symbol, available while the machine is `Composed`.
    pub fn keysym(&self) -> (r: Option<u32>)
        ensures
            r == self@.result,
    {
        self.result
    }

    /// Feed one resolved symbol from a key press.
    pub fn feed(&mut self, sym: u32)
        ensures
            final(self)@ == old(self)@.feed_transition(sym),
    {
        match self.status {
            ComposeStatus::Composing => {},
            _ => {
                self.pending = Vec::new();
            },
        }
        self.result = None;
        self.pending.push(sym);
        let full: Option<u32> = lookup_from(&self.table, &self.pending, 0);
        match full {
            Some(r) => {
                self.status = ComposeStatus::Composed;
                self.result = Some(r);
                self.pending = Vec::new();
            },
            None => {
                if is_sequence_prefix(&self.table, &self.pending) {
                    self.status = ComposeStatus::Composing;
                } else if self.pending.len() == 1 {
                    self.status = ComposeStatus::Nothing;
                    self.pending = Vec::new();
                } else {
                    self.status = ComposeStatus::Cancelled;
                    self.pending = Vec::new();
                }
            },
        }
        proof {
            assert(final(self)@ =~= old(self)@.feed_transition(sym));
        }
    }

    /// Return the machine to idle, dropping any sequence in flight and
    /// any pending result.
    pub fn reset(&mut self)
        ensures
            final(self)@ == old(self)@.reset_transition(),
    {
        self.status = ComposeStatus::Nothing;
        self.pending = Vec::new();
        self.result = None;
        proof {
            assert(final(self)@ =~= old(self)@.reset_transition());
        }
    }
}

/// The machine after feeding every symbol of `syms` in order.
pub open spec fn spec_feed_all(m: ComposeModel, syms: Seq<u32>) -> ComposeModel
    decreases syms.len(),
{
    if syms.len() == 0 {
        m
    } else {
        spec_feed_all(m, syms.drop_last()).feed_transition(syms.last())
    }
}

/// Every proper, non-empty prefix of a table sequence, fed from idle,
/// leaves the machine mid-sequence with exactly that prefix in flight —
/// provided no such prefix already completes an entry of its own.
pub proof fn lemma_prefix_composing(m: ComposeModel, keys: Seq<u32>, k: int)
    requires
        m.status is Nothing,
        spec_lookup(m.table, keys) is Some,
        1 <= k < keys.len(),
        forall|j: int| 1 <= j < keys.len() ==> spec_lookup(m.table, keys.subrange(0, j)) is None,
    ensures
        spec_feed_all(m, keys.subrange(0, k)).status is Composing,
        spec_feed_all(m, keys.subrange(0, k)).pending == keys.subrange(0, k),
        spec_feed_all(m, keys.subrange(0, k)).table == m.table,
    decreases k,
{
    lemma_lookup_some_is_entry(m.table, keys, 0);
    let witness = choose|i: int| 0 <= i < m.table.len() && m.table[i].keys == keys;
    if k == 1 {
        let cand = m.base().push(keys[0]);
        assert(cand =~= keys.subrange(0, 1));
        assert(m.table[witness].keys.subrange(0, cand.len() as int) =~= cand);
        assert(spec_is_sequence_prefix(m.table, cand));
        assert(spec_feed_all(m, keys.subrange(0, 1)) == m.feed_transition(keys.subrange(0, 1)[0]))
            by {
            reveal_with_fuel(spec_feed_all, 2);
            assert(keys.subrange(0, 1).drop_last() =~= Seq::<u32>::empty());
            assert(spec_feed_all(m, Seq::<u32>::empty()) == m);
        }
    } else {
        lemma_prefix_composing(m, keys, k - 1);
        let prev = spec_feed_all(m, keys.subrange(0, k - 1));
        let sub = keys.subrange(0, k);
        assert(sub.drop_last() =~= keys.subrange(0, k - 1));
        assert(sub.last() == keys[k - 1]);
        let cand = prev.base().push(keys[k - 1]);
        assert(cand =~= sub);
        assert(m.table[witness].keys.subrange(0, sub.len() as int) =~= sub);
        assert(spec_is_sequence_prefix(m.table, sub));
        assert(spec_feed_all(m, sub) == prev.feed_transition(keys[k - 1]));
    }
}

/// Law: feeding a whole table sequence from an idle machine completes it
/// — every press before the last leaves the machine mid-sequence (those
/// presses are swallowed), and the last press alone yields the composed
/// result, exactly once.  The session then resets the machine, so it is
/// idle for the next symbol.  Sequences whose proper prefixes already
/// complete some entry finish early and are excluded.
pub proof fn lemma_full_sequence_composes(m: ComposeModel, keys: Seq<u32>)
    requires
        m.status is Nothing,
        keys.len() >= 1,
        spec_lookup(m.table, keys) is Some,
        forall|j: int| 1 <= j < keys.len() ==> spec_lookup(m.table, keys.subrange(0, j)) is None,
    ensures
        spec_feed_all(m, keys).status is Composed,
        spec_feed_all(m, keys).result == spec_lookup(m.table, keys),
        forall|k: int|
            1 <= k < keys.len() ==> #[trigger] spec_feed_all(
                m,
                keys.subrange(0, k),
            ).status is Composing,
        spec_feed_all(m, keys).reset_transition().status is Nothing,
        spec_feed_all(m, keys).reset_transition().pending =~= Seq::<u32>::empty(),
{
    if keys.len() == 1 {
        let cand = m.base().push(keys[0]);
        assert(cand =~= keys);
        assert(keys.drop_last() =~= Seq::<u32>::empty());
        assert(spec_feed_all(m, keys) == m.feed_transition(keys[0])) by {
            reveal_with_fuel(spec_feed_all, 2);
            assert(spec_feed_all(m, Seq::<u32>::empty()) == m);
        }
    } else {
        let n = keys.len() as int;
        lemma_prefix_composing(m, keys, n - 1);
        let prev = spec_feed_all(m, keys.subrange(0, n - 1));
        assert(keys.drop_last() =~= keys.subrange(0, n - 1));
        let cand = prev.base().push(keys[n - 1]);
        assert(cand =~= keys);
        assert(spec_feed_all(m, keys) == prev.feed_transition(keys[n - 1]));
        assert forall|k: int| 1 <= k < keys.len() implies #[trigger] spec_feed_all(
            m,
            keys.subrange(0, k),
        ).status is Composing by {
            lemma_prefix_composing(m, keys, k);
        }
    }
}

/// Law: a symbol that completes no entry and starts no sequence passes an
/// idle machine through — the machine stays idle and swallows nothing.
pub proof fn lemma_idle_pass_through(m: ComposeModel, sym: u32)
    requires
        m.status is Nothing,
        spec_lookup(m.table, seq![sym]) is None,
        !spec_is_sequence_prefix(m.table, seq![sym]),
    ensures
        m.feed_transition(sym).status is Nothing,
        m.feed_transition(sym).pending =~= Seq::<u32>::empty(),
{
    let cand = m.base().push(sym);
    assert(cand =~= seq![sym]);
}

} // verus!
