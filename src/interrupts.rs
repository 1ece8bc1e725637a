//! The interrupt-name index: handler names mapped to CPU vectors.
use vstd::prelude::*;

verus! {

/// The vector of the first PIC's line 0.
pub const PIC_1_OFFSET: u8 = 0x20;
/// The vector of the second PIC's line 0.
pub const PIC_2_OFFSET: u8 = 0x28;

/// Handler names and the CPU vectors they are installed on, in insertion order.
#[derive(Debug, Clone)]
pub struct MyInterruptIndex {
    pub table: Vec<(String, u8)>,
}

/// The entries of `index` as names and vectors.
pub open spec fn index_entries(index: &MyInterruptIndex) -> Seq<(Seq<char>, u8)> {
    index.table@.map_values(|p: (String, u8)| (p.0@, p.1))
}

/// `r` is the vector of the first entry named `key`, `None` when there is none.
pub open spec fn first_vector(entries: Seq<(Seq<char>, u8)>, key: Seq<char>, r: Option<u8>) -> bool {
    &&& r is None <==> forall|i: int| 0 <= i < entries.len() ==> (#[trigger] entries[i]).0 != key
    &&& r matches Some(v) ==> exists|i: int|
        0 <= i < entries.len() && (#[trigger] entries[i]).0 == key && entries[i].1 == v && forall|
            j: int,
        |
            0 <= j < i ==> (#[trigger] entries[j]).0 != key
}

impl MyInterruptIndex {
    pub fn new() -> (r: MyInterruptIndex)
        ensures
            index_entries(&r).len() == 0,
    {
        MyInterruptIndex { table: Vec::new() }
    }

    /// The index set up at boot: the timer on line 0 and the keyboard on line 1
    /// of the first PIC.
    pub fn with_defaults() -> (r: MyInterruptIndex)
        ensures
            index_entries(&r) == seq![("Timer"@, PIC_1_OFFSET), ("Keyboard"@, (PIC_1_OFFSET + 1) as u8)],
    {
        let mut index = MyInterruptIndex::new();
        index.insert("Timer", PIC_1_OFFSET);
        index.insert("Keyboard", PIC_1_OFFSET + 1);
        assert(index_entries(&index) =~= seq![("Timer"@, PIC_1_OFFSET), ("Keyboard"@, (PIC_1_OFFSET + 1) as u8)]);
        index
    }

    /// Appends the entry `key` → `value`.
    pub fn insert(&mut self, key: &str, value: u8)
        ensures
            index_entries(&*final(self)) == index_entries(&*old(self)).push((key@, value)),
    {
        self.table.push((key.to_owned(), value));
        assert(index_entries(&*self) =~= index_entries(&*old(self)).push((key@, value)));
    }

    /// The vector of the first entry named `key`.
    pub fn get(&self, key: &str) -> (r: Option<u8>)
        ensures
            first_vector(index_entries(self), key@, r),
    {
        let k = key.to_owned();
        let ghost entries = index_entries(self);
        let mut i: usize = 0;
        while i < self.table.len()
            invariant
                i <= self.table@.len(),
                entries == index_entries(self),
                k@ == key@,
                forall|j: int| 0 <= j < i ==> (#[trigger] entries[j]).0 != key@,
            decreases self.table.len() - i,
        {
            if self.table[i].0 == k {
                assert(entries[i as int].0 == key@);
                return Some(self.table[i].1);
            }
            i += 1;
        }
        None
    }
}

/// Records `name` on the vector of line `line` of the first PIC. Returns `false`,
/// recording nothing, when that vector would pass 255.
pub fn regiser_interrupt(index: &mut MyInterruptIndex, name: &str, line: u8) -> (r: bool)
    ensures
        r == (line as int + PIC_1_OFFSET as int <= 255),
        r ==> index_entries(&*final(index)) == index_entries(&*old(index)).push(
            (name@, (PIC_1_OFFSET + line) as u8),
        ),
        !r ==> index_entries(&*final(index)) == index_entries(&*old(index)),
{
    if line > 255 - PIC_1_OFFSET {
        return false;
    }
    index.insert(name, PIC_1_OFFSET + line);
    true
}

/// The vectors that the interrupt descriptor table installs handlers on.
#[derive(Clone, Copy, Debug, PartialEq, Eq, Structural)]
pub struct IdtVectors {
    pub timer: u8,
    pub keyboard: u8,
    /// Present once the NIC has registered its line.
    pub rtl8139: Option<u8>,
}

/// The vectors of the timer, keyboard and RTL8139 handlers, looked up by name;
/// `None` when the timer or the keyboard has no entry.
pub fn init_idt(index: &MyInterruptIndex) -> (r: Option<IdtVectors>)
    ensures
        ({
            let e = index_entries(index);
            exists|t: Option<u8>, k: Option<u8>, n: Option<u8>|
                first_vector(e, "Timer"@, t) && first_vector(e, "Keyboard"@, k) && first_vector(
                    e,
                    "RTL8139"@,
                    n,
                ) && if t is Some && k is Some {
                    r == Some(IdtVectors { timer: t->0, keyboard: k->0, rtl8139: n })
                } else {
                    r is None
                }
        }),
{
    let t = index.get("Timer");
    let k = index.get("Keyboard");
    let n = index.get("RTL8139");
    match (t, k) {
        (Some(timer), Some(keyboard)) => Some(IdtVectors { timer, keyboard, rtl8139: n }),
        _ => None,
    }
}

} // verus!
