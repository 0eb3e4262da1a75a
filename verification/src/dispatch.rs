use crate::felt::Felt;
use crate::model::EventLabel;
use vstd::prelude::*;

verus! {

/// High and low limbs of the discriminant a deposit-initiated event is
/// emitted under.
pub const DEPOSIT_SELECTOR_HI: u128 = 0x1682ccdc90fbee2d6cc3e930539cb4c;

pub const DEPOSIT_SELECTOR_LO: u128 = 0xa29390a438db1c2e4c7d493e01a61abb;

/// High and low limbs of the discriminant a withdraw-completed event is
/// emitted under.
pub const WITHDRAW_SELECTOR_HI: u128 = 0x132aab9714c265c8ad151ce006bb916;

pub const WITHDRAW_SELECTOR_LO: u128 = 0x91100722ddec42e7ee96dc9dfa9e741c;

pub open spec fn spec_deposit_selector() -> Felt {
    Felt { hi: DEPOSIT_SELECTOR_HI, lo: DEPOSIT_SELECTOR_LO }
}

pub open spec fn spec_withdraw_selector() -> Felt {
    Felt { hi: WITHDRAW_SELECTOR_HI, lo: WITHDRAW_SELECTOR_LO }
}

/// The label the bridge's own two discriminants map to; `None` for
/// every other discriminant value.
pub open spec fn selector_label(v: nat) -> Option<EventLabel> {
    if v == spec_deposit_selector().value() {
        Some(EventLabel::DepositInitiated)
    } else if v == spec_withdraw_selector().value() {
        Some(EventLabel::WithdrawCompleted)
    } else {
        None
    }
}

/// First match in a list of discriminant-to-label entries.
pub open spec fn seq_lookup(s: Seq<(Felt, EventLabel)>, v: nat) -> Option<EventLabel>
    decreases s.len(),
{
    if s.len() == 0 {
        None
    } else if s[0].0.value() == v {
        Some(s[0].1)
    } else {
        seq_lookup(s.drop_first(), v)
    }
}

/// An open table from event discriminants to semantic labels. New
/// entries are registered without touching the decode logic; the first
/// entry whose discriminant matches wins.
pub struct SelectorTable {
    pub entries: Vec<(Felt, EventLabel)>,
}

impl SelectorTable {
    pub open spec fn lookup_spec(self, v: nat) -> Option<EventLabel> {
        seq_lookup(self.entries@, v)
    }

    /// A table with no entry: every discriminant is unrecognized.
    pub fn new() -> (t: SelectorTable)
        ensures
            t.entries@.len() == 0,
    {
        SelectorTable { entries: Vec::new() }
    }

    /// Adds one discriminant-to-label entry behind the existing ones.
    pub fn register(&mut self, selector: Felt, label: EventLabel)
        ensures
            final(self).entries@ == old(self).entries@.push((selector, label)),
    {
        self.entries.push((selector, label));
    }

    /// The label registered for a discriminant, or `None` when the
    /// discriminant is not of interest.
    pub fn lookup(&self, selector: &Felt) -> (r: Option<EventLabel>)
        ensures
            r == self.lookup_spec(selector.value()),
    {
        let n = self.entries.len();
        let mut i: usize = 0;
        proof {
            assert(self.entries@.skip(0) =~= self.entries@);
        }
        while i < n
            invariant
                n == self.entries@.len(),
                0 <= i <= n,
                seq_lookup(self.entries@, selector.value()) == seq_lookup(
                    self.entries@.skip(i as int),
                    selector.value(),
                ),
            decreases n - i,
        {
            let entry = &self.entries[i];
            if entry.0.hi == selector.hi && entry.0.lo == selector.lo {
                proof {
                    assert(self.entries@.skip(i as int)[0] == self.entries@[i as int]);
                }
                return Some(entry.1);
            }
            proof {
                assert(self.entries@.skip(i as int).drop_first() =~= self.entries@.skip(
                    i as int + 1,
                ));
                assert(self.entries@.skip(i as int)[0] == self.entries@[i as int]);
                if self.entries@[i as int].0.value() == selector.value() {
                    crate::felt::lemma_felt_value_determines_limbs(
                        self.entries@[i as int].0,
                        *selector,
                    );
                }
            }
            i = i + 1;
        }
        proof {
            assert(self.entries@.skip(n as int).len() == 0);
        }
        None
    }

    /// The bridge's own table: the deposit discriminant, then the
    /// withdraw discriminant. Looking a value up here is exactly
    /// `selector_label`.
    pub fn bridge_selectors() -> (t: SelectorTable)
        ensures
            forall|v: nat| t.lookup_spec(v) == selector_label(v),
    {
        let mut t = SelectorTable::new();
        t.register(
            Felt { hi: DEPOSIT_SELECTOR_HI, lo: DEPOSIT_SELECTOR_LO },
            EventLabel::DepositInitiated,
        );
        t.register(
            Felt { hi: WITHDRAW_SELECTOR_HI, lo: WITHDRAW_SELECTOR_LO },
            EventLabel::WithdrawCompleted,
        );
        proof {
            assert forall|v: nat| t.lookup_spec(v) == selector_label(v) by {
                reveal_with_fuel(seq_lookup, 3);
                let e = t.entries@;
                assert(e.len() == 2);
                assert(e[0] == (spec_deposit_selector(), EventLabel::DepositInitiated));
                assert(e[1] == (spec_withdraw_selector(), EventLabel::WithdrawCompleted));
                assert(e.drop_first()[0] == e[1]);
                assert(e.drop_first().drop_first().len() == 0);
                lemma_selector_values_differ();
            }
        }
        t
    }
}

/// The two registered discriminants are distinct values.
proof fn lemma_selector_values_differ()
    ensures
        spec_deposit_selector().value() != spec_withdraw_selector().value(),
{
    if spec_deposit_selector().value() == spec_withdraw_selector().value() {
        crate::felt::lemma_felt_value_determines_limbs(
            spec_deposit_selector(),
            spec_withdraw_selector(),
        );
    }
}

} // verus!
