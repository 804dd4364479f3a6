//! Decoded slot mappings and the rule that reads availability off them.
use vstd::prelude::*;
use vstd::hash_map::StringHashMap;

verus! {

/// The key whose flag decides availability: the one-character string `1`.
pub open spec fn deciding_key() -> Seq<char> {
    seq!['1']
}

/// The availability rule: the mapping has exactly two entries and the entry
/// keyed `1` is open.
///
/// The rule mirrors a quirk of the slot service and is deliberately literal:
/// a mapping of any other size, or one without the key `1`, gives `false`.
pub open spec fn availability_rule(slots: Map<Seq<char>, bool>) -> bool {
    &&& slots.len() == 2
    &&& slots.contains_key(deciding_key())
    &&& slots[deciding_key()]
}

/// Slot-open flags of one location, keyed by the slot's name.
pub struct SlotMap {
    flags: StringHashMap<bool>,
}

impl View for SlotMap {
    type V = Map<Seq<char>, bool>;

    closed spec fn view(&self) -> Map<Seq<char>, bool> {
        self.flags@
    }
}

impl SlotMap {
    /// A mapping without entries.
    pub fn new() -> (slots: SlotMap)
        ensures
            slots@ == (Map::<Seq<char>, bool>::empty()),
    {
        SlotMap { flags: StringHashMap::new() }
    }

    /// Sets the flag of `slot`, replacing an earlier flag of the same slot.
    pub fn insert(&mut self, slot: String, open: bool)
        ensures
            final(self)@ == old(self)@.insert(slot@, open),
    {
        self.flags.insert(slot, open);
    }

    /// Number of entries.
    pub fn len(&self) -> (n: usize)
        ensures
            n == self@.len(),
    {
        self.flags.len()
    }

    /// The flag of `slot`, if the mapping has that slot.
    pub fn get(&self, slot: &str) -> (flag: Option<bool>)
        ensures
            flag == (if self@.contains_key(slot@) {
                Some(self@[slot@])
            } else {
                None
            }),
    {
        match self.flags.get(slot) {
            Some(open) => Some(*open),
            None => None,
        }
    }

    /// Whether the location may have open appointments, by
    /// [`availability_rule`].
    pub fn possible_availability(&self) -> (available: bool)
        ensures
            available == availability_rule(self@),
    {
        proof {
            reveal_strlit("1");
            assert("1"@ =~= deciding_key());
        }
        let first = match self.get("1") {
            Some(open) => open,
            None => false,
        };
        let again = match self.get("1") {
            Some(open) => open,
            None => false,
        };
        first && again && self.len() == 2
    }
}

/// The availability flag is set exactly when the mapping has two entries and
/// its entry keyed `1` is open; in particular it is not set for a mapping of
/// any other size, nor where the key `1` is missing or closed.
pub proof fn availability_rule_is_literal(slots: Map<Seq<char>, bool>)
    ensures
        availability_rule(slots) <==> (slots.len() == 2 && slots.contains_key(seq!['1'])
            && slots[seq!['1']]),
        slots.len() != 2 ==> !availability_rule(slots),
        !slots.contains_key(seq!['1']) ==> !availability_rule(slots),
        slots.contains_key(seq!['1']) && !slots[seq!['1']] ==> !availability_rule(slots),
{
}

} // verus!
