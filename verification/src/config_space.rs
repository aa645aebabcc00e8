//! A value-level model of PCI configuration space: the set of present
//! functions, each carrying its configuration registers as 32-bit words.
//!
//! Reads of an absent function, or of a register word a function does not
//! carry, yield the all-ones pattern the bus returns for unclaimed cycles.

use vstd::prelude::*;

verus! {

/// The word every unclaimed configuration read returns.
pub const ABSENT_WORD: u32 = 0xFFFF_FFFF;

/// One present PCI function with its configuration registers.
/// `regs[i]` is the 32-bit word at configuration offset `4 * i`.
#[derive(Debug)]
pub struct ConfigFunction {
    pub bus: u8,
    pub device: u8,
    pub function: u8,
    pub regs: Vec<u32>,
}

impl ConfigFunction {
    pub fn new(bus: u8, device: u8, function: u8, regs: Vec<u32>) -> (r: Self)
        ensures
            r.bus == bus && r.device == device && r.function == function,
            r.regs@ == regs@,
    {
        Self { bus, device, function, regs }
    }
}

/// Whether `e` sits at the given bus/device/function location.
pub open spec fn cfg_matches(e: ConfigFunction, bus: u8, device: u8, function: u8) -> bool {
    e.bus == bus && e.device == device && e.function == function
}

/// Index of the first entry at the given location, searching from index `i`
/// on; `-1` when there is none.
pub open spec fn cfg_index_from(
    s: Seq<ConfigFunction>,
    bus: u8,
    device: u8,
    function: u8,
    i: int,
) -> int
    decreases s.len() - i,
{
    if i < 0 || i >= s.len() {
        -1
    } else if cfg_matches(s[i], bus, device, function) {
        i
    } else {
        cfg_index_from(s, bus, device, function, i + 1)
    }
}

/// Index of the first entry at the given location; `-1` when absent.
pub open spec fn cfg_index(s: Seq<ConfigFunction>, bus: u8, device: u8, function: u8) -> int {
    cfg_index_from(s, bus, device, function, 0)
}

/// The first entry at the given location, if any.
pub open spec fn cfg_find(
    s: Seq<ConfigFunction>,
    bus: u8,
    device: u8,
    function: u8,
) -> Option<ConfigFunction> {
    if cfg_index(s, bus, device, function) >= 0 {
        Some(s[cfg_index(s, bus, device, function)])
    } else {
        None
    }
}

/// A found index lies in range, its entry matches, and nothing before it
/// (from the search start) matches.
pub proof fn lemma_cfg_index_from_bounds(
    s: Seq<ConfigFunction>,
    bus: u8,
    device: u8,
    function: u8,
    i: int,
)
    requires
        0 <= i,
    ensures
        ({
            let idx = cfg_index_from(s, bus, device, function, i);
            (idx == -1 || (i <= idx < s.len() && cfg_matches(s[idx], bus, device, function)))
                && (idx == -1 ==> forall|j: int|
                i <= j < s.len() ==> !cfg_matches(#[trigger] s[j], bus, device, function))
        }),
    decreases s.len() - i,
{
    if i < s.len() && !cfg_matches(s[i], bus, device, function) {
        lemma_cfg_index_from_bounds(s, bus, device, function, i + 1);
    }
}

/// The configuration word `reg_index` of the function at the given location;
/// all-ones when the function is absent or does not carry that word.
pub open spec fn cfg_read(
    s: Seq<ConfigFunction>,
    bus: u8,
    device: u8,
    function: u8,
    reg_index: int,
) -> u32 {
    match cfg_find(s, bus, device, function) {
        Some(e) => if 0 <= reg_index < e.regs@.len() {
            e.regs@[reg_index]
        } else {
            ABSENT_WORD
        },
        None => ABSENT_WORD,
    }
}

/// How a configuration write turns the function list `s` into `t`: word
/// `reg_index` of the first function at the location is replaced by `value`;
/// a write to an absent function or an uncarried word changes nothing, as the
/// bus drops it.
pub open spec fn cfg_write_effect(
    s: Seq<ConfigFunction>,
    t: Seq<ConfigFunction>,
    bus: u8,
    device: u8,
    function: u8,
    reg_index: int,
    value: u32,
) -> bool {
    let idx = cfg_index(s, bus, device, function);
    if idx >= 0 && 0 <= reg_index < s[idx].regs@.len() {
        t.len() == s.len() && (forall|k: int| 0 <= k < s.len() && k != idx ==> t[k] == s[k])
            && t[idx].bus == s[idx].bus && t[idx].device == s[idx].device && t[idx].function
            == s[idx].function && t[idx].regs@ == s[idx].regs@.update(reg_index, value)
    } else {
        t == s
    }
}

/// The set of present functions, looked up by location.
#[derive(Debug)]
pub struct ConfigSpace {
    functions: Vec<ConfigFunction>,
}

impl ConfigSpace {
    /// The modeled functions, in insertion order.
    pub closed spec fn entries(&self) -> Seq<ConfigFunction> {
        self.functions@
    }

    pub fn new() -> (r: Self)
        ensures
            r.entries().len() == 0,
    {
        Self { functions: Vec::new() }
    }

    /// Adds a function; refuses a location that is already present, so that
    /// lookups stay unambiguous.
    pub fn add_function(&mut self, e: ConfigFunction) -> (r: bool)
        ensures
            r == (cfg_index(old(self).entries(), e.bus, e.device, e.function) == -1),
            r ==> final(self).entries() == old(self).entries().push(e),
            !r ==> final(self).entries() == old(self).entries(),
    {
        let bus = e.bus;
        let device = e.device;
        let function = e.function;
        if self.find_index(bus, device, function).is_some() {
            return false;
        }
        self.functions.push(e);
        true
    }

    /// Index of the first function at the given location.
    pub fn find_index(&self, bus: u8, device: u8, function: u8) -> (r: Option<usize>)
        ensures
            match r {
                Some(i) => cfg_index(self.entries(), bus, device, function) == i as int,
                None => cfg_index(self.entries(), bus, device, function) == -1,
            },
    {
        let mut i: usize = 0;
        while i < self.functions.len()
            invariant
                i <= self.functions.len(),
                cfg_index(self.entries(), bus, device, function) == cfg_index_from(
                    self.entries(),
                    bus,
                    device,
                    function,
                    i as int,
                ),
            decreases self.functions.len() - i,
        {
            let e = &self.functions[i];
            if e.bus == bus && e.device == device && e.function == function {
                return Some(i);
            }
            i += 1;
        }
        None
    }

    /// Reads configuration word `reg_index` at the given location.
    pub fn read_reg32(&self, bus: u8, device: u8, function: u8, reg_index: usize) -> (r: u32)
        ensures
            r == cfg_read(self.entries(), bus, device, function, reg_index as int),
    {
        proof {
            lemma_cfg_index_from_bounds(self.entries(), bus, device, function, 0);
        }
        match self.find_index(bus, device, function) {
            Some(i) => {
                let e = &self.functions[i];
                if reg_index < e.regs.len() {
                    e.regs[reg_index]
                } else {
                    ABSENT_WORD
                }
            },
            None => ABSENT_WORD,
        }
    }

    /// Replaces configuration word `reg_index` at the given location; a write
    /// to an absent function or an uncarried word is dropped, as the bus
    /// drops it.
    pub fn write_reg32(
        &mut self,
        bus: u8,
        device: u8,
        function: u8,
        reg_index: usize,
        value: u32,
    )
        ensures
            cfg_write_effect(
                old(self).entries(),
                final(self).entries(),
                bus,
                device,
                function,
                reg_index as int,
                value,
            ),
    {
        proof {
            lemma_cfg_index_from_bounds(self.entries(), bus, device, function, 0);
        }
        match self.find_index(bus, device, function) {
            Some(i) => {
                if reg_index < self.functions[i].regs.len() {
                    let e = &mut self.functions[i];
                    e.regs[reg_index] = value;
                }
            },
            None => {},
        }
    }
}

} // verus!
