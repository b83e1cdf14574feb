//! The volume table: the current gain of each channel, by name. Workers read
//! it every cycle; the control plane replaces single entries.
use vstd::prelude::*;
use crate::loose::same_text;

verus! {

/// The gain of one channel.
#[derive(Debug)]
pub struct VolumeEntry {
    pub name: String,
    pub gain: u32,
}

/// Current gains, at most one entry per name.
#[derive(Debug)]
pub struct VolumeTable {
    entries: Vec<VolumeEntry>,
}

impl View for VolumeTable {
    type V = Map<Seq<char>, u32>;

    closed spec fn view(&self) -> Map<Seq<char>, u32> {
        Map::new(
            |k: Seq<char>| exists|i: int| 0 <= i < self.entries@.len() && self.entries@[i].name@ == k,
            |k: Seq<char>|
                self.entries@[choose|i: int| 0 <= i < self.entries@.len() && self.entries@[i].name@ == k].gain,
        )
    }
}

impl VolumeTable {
    /// No name has two entries.
    pub closed spec fn wf(&self) -> bool {
        forall|i: int, j: int|
            0 <= i < self.entries@.len() && 0 <= j < self.entries@.len() && #[trigger] self.entries@[i].name@
                == #[trigger] self.entries@[j].name@ ==> i == j
    }

    /// An empty table.
    pub fn new() -> (r: VolumeTable)
        ensures
            r.wf(),
            r@ == Map::<Seq<char>, u32>::empty(),
    {
        let r = VolumeTable { entries: Vec::new() };
        assert(r@ =~= Map::<Seq<char>, u32>::empty());
        r
    }

    fn position(&self, name: &str) -> (r: Option<usize>)
        ensures
            match r {
                Some(i) => i < self.entries@.len() && self.entries@[i as int].name@ == name@,
                None => forall|i: int| 0 <= i < self.entries@.len() ==> self.entries@[i].name@ != name@,
            },
    {
        let mut i: usize = 0;
        while i < self.entries.len()
            invariant
                i <= self.entries@.len(),
                forall|k: int| 0 <= k < i ==> self.entries@[k].name@ != name@,
            decreases self.entries.len() - i,
        {
            if same_text(self.entries[i].name.as_str(), name) {
                return Some(i);
            }
            i += 1;
        }
        None
    }

    /// The gain stored for `name`, if any.
    pub fn get(&self, name: &str) -> (r: Option<u32>)
        requires
            self.wf(),
        ensures
            r == (if self@.contains_key(name@) {
                Some(self@[name@])
            } else {
                None
            }),
    {
        match self.position(name) {
            Some(i) => {
                assert(self@.contains_key(name@));
                let ghost j = choose|j: int| 0 <= j < self.entries@.len() && self.entries@[j].name@ == name@;
                assert(self.entries@[j].name@ == self.entries@[i as int].name@);
                Some(self.entries[i].gain)
            },
            None => None,
        }
    }

    /// Replaces the gain of `name`, adding the entry where there is none.
    pub fn set(&mut self, name: &str, gain: u32)
        requires
            old(self).wf(),
        ensures
            final(self).wf(),
            final(self)@ == old(self)@.insert(name@, gain),
    {
        let ghost before = self.entries@;
        match self.position(name) {
            Some(i) => {
                let n = self.entries[i].name.clone();
                self.entries.set(i, VolumeEntry { name: n, gain });
                assert forall|k: Seq<char>| #[trigger] self@.contains_key(k) == old(self)@.insert(name@, gain).contains_key(k) by {
                    if self@.contains_key(k) {
                        let j = choose|j: int| 0 <= j < self.entries@.len() && self.entries@[j].name@ == k;
                        assert(before[j].name@ == k);
                    }
                    if old(self)@.contains_key(k) {
                        let j = choose|j: int| 0 <= j < before.len() && before[j].name@ == k;
                        assert(self.entries@[j].name@ == k);
                    }
                    if k == name@ {
                        assert(self.entries@[i as int].name@ == k);
                    }
                }
                assert forall|k: Seq<char>| #[trigger] self@.contains_key(k) implies self@[k] == old(self)@.insert(name@, gain)[k] by {
                    let j = choose|j: int| 0 <= j < self.entries@.len() && self.entries@[j].name@ == k;
                    assert(before[j].name@ == k);
                    if k != name@ {
                        let j2 = choose|j2: int| 0 <= j2 < before.len() && before[j2].name@ == k;
                        assert(before[j2].name@ == before[j].name@);
                    } else {
                        assert(self.entries@[j].name@ == self.entries@[i as int].name@);
                    }
                }
                assert(self@ =~= old(self)@.insert(name@, gain));
            },
            None => {
                self.entries.push(VolumeEntry { name: name.to_owned(), gain });
                let ghost last = before.len() as int;
                assert forall|k: Seq<char>| #[trigger] self@.contains_key(k) == old(self)@.insert(name@, gain).contains_key(k) by {
                    if self@.contains_key(k) {
                        let j = choose|j: int| 0 <= j < self.entries@.len() && self.entries@[j].name@ == k;
                        if j < last {
                            assert(before[j].name@ == k);
                        }
                    }
                    if old(self)@.contains_key(k) {
                        let j = choose|j: int| 0 <= j < before.len() && before[j].name@ == k;
                        assert(self.entries@[j].name@ == k);
                    }
                    if k == name@ {
                        assert(self.entries@[last].name@ == k);
                    }
                }
                assert forall|k: Seq<char>| #[trigger] self@.contains_key(k) implies self@[k] == old(self)@.insert(name@, gain)[k] by {
                    let j = choose|j: int| 0 <= j < self.entries@.len() && self.entries@[j].name@ == k;
                    if k != name@ {
                        assert(j < last);
                        assert(before[j].name@ == k);
                        let j2 = choose|j2: int| 0 <= j2 < before.len() && before[j2].name@ == k;
                        assert(before[j2].name@ == before[j].name@);
                    } else {
                        assert(j == last);
                    }
                }
                assert(self@ =~= old(self)@.insert(name@, gain));
            },
        }
    }

    /// Removes every entry.
    pub fn reset_all(&mut self)
        ensures
            final(self).wf(),
            final(self)@ == Map::<Seq<char>, u32>::empty(),
    {
        self.entries.clear();
        assert(self@ =~= Map::<Seq<char>, u32>::empty());
    }
}

} // verus!
