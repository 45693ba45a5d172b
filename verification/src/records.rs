//! The records that the machine answers with, and the text each is shown as.
//!
//! A list that came back empty is shown as the record's `default()`: every
//! field empty.

use crate::decimal::{decimal_value, parse_u128};
use crate::size::{format_size, size_text};
use vstd::prelude::*;
use vstd::string::*;

verus! {

/// A processor.
#[derive(Debug)]
pub struct CPU {
    pub name: String,
}

/// The baseboard.
#[derive(Debug)]
pub struct Baseboard {
    pub manufacturer: String,
    pub product: String,
}

/// A video controller, as the instrumentation names it.
#[derive(Debug)]
pub struct GPU {
    pub caption: String,
}

/// A memory module. Its capacity in bytes arrives as decimal text.
#[derive(Debug)]
pub struct RAM {
    pub capacity: String,
}

impl Default for CPU {
    fn default() -> (r: Self)
        ensures
            r.name@ == Seq::<char>::empty(),
    {
        CPU { name: String::new() }
    }
}

impl Default for Baseboard {
    fn default() -> (r: Self)
        ensures
            r.manufacturer@ == Seq::<char>::empty(),
            r.product@ == Seq::<char>::empty(),
    {
        Baseboard { manufacturer: String::new(), product: String::new() }
    }
}

impl Default for GPU {
    fn default() -> (r: Self)
        ensures
            r.caption@ == Seq::<char>::empty(),
    {
        GPU { caption: String::new() }
    }
}

impl Default for RAM {
    fn default() -> (r: Self)
        ensures
            r.capacity@ == Seq::<char>::empty(),
    {
        RAM { capacity: String::new() }
    }
}

impl Clone for CPU {
    fn clone(&self) -> (r: Self)
        ensures
            r.name@ == self.name@,
    {
        CPU { name: self.name.clone() }
    }
}

impl Clone for Baseboard {
    fn clone(&self) -> (r: Self)
        ensures
            r.manufacturer@ == self.manufacturer@,
            r.product@ == self.product@,
    {
        Baseboard { manufacturer: self.manufacturer.clone(), product: self.product.clone() }
    }
}

impl Clone for GPU {
    fn clone(&self) -> (r: Self)
        ensures
            r.caption@ == self.caption@,
    {
        GPU { caption: self.caption.clone() }
    }
}

impl Clone for RAM {
    fn clone(&self) -> (r: Self)
        ensures
            r.capacity@ == self.capacity@,
    {
        RAM { capacity: self.capacity.clone() }
    }
}

impl CPU {
    /// The name as it came.
    pub open spec fn text(&self) -> Seq<char> {
        self.name@
    }

    /// The processor as the report shows it.
    pub fn to_string(&self) -> (text: String)
        ensures
            text@ == self.text(),
    {
        self.name.clone()
    }
}

impl Baseboard {
    /// Manufacturer, one space, product. Nothing is trimmed: with an empty
    /// manufacturer the text begins with the space.
    pub open spec fn text(&self) -> Seq<char> {
        self.manufacturer@ + " "@ + self.product@
    }

    /// The baseboard as the report shows it.
    pub fn to_string(&self) -> (text: String)
        ensures
            text@ == self.text(),
    {
        let mut text = self.manufacturer.clone();
        text.append(" ");
        text.append(self.product.as_str());
        text
    }
}

impl GPU {
    /// The caption as it came.
    pub open spec fn text(&self) -> Seq<char> {
        self.caption@
    }

    /// The video controller as the report shows it.
    pub fn to_string(&self) -> (text: String)
        ensures
            text@ == self.text(),
    {
        self.caption.clone()
    }
}

impl RAM {
    /// The capacity in bytes, where the text reads as a number.
    pub open spec fn bytes(&self) -> Option<nat> {
        decimal_value(self.capacity@)
    }

    /// The capacity as a size; empty where the text does not read as a
    /// number.
    pub open spec fn text(&self) -> Seq<char> {
        match self.bytes() {
            Some(bytes) => size_text(bytes as u128),
            None => Seq::<char>::empty(),
        }
    }

    /// The module as the report shows it.
    pub fn to_string(&self) -> (text: String)
        ensures
            text@ == self.text(),
    {
        match parse_u128(self.capacity.as_str()) {
            Some(bytes) => format_size(bytes),
            None => String::new(),
        }
    }
}

/// What a module adds to the total: its capacity, or nothing where the text
/// does not read as a number.
pub open spec fn counted_bytes(module: RAM) -> nat {
    match module.bytes() {
        Some(bytes) => bytes,
        None => 0,
    }
}

/// The capacities of all modules together.
pub open spec fn total_bytes(modules: Seq<RAM>) -> nat
    decreases modules.len(),
{
    if modules.len() == 0 {
        0
    } else {
        total_bytes(modules.drop_last()) + counted_bytes(modules.last())
    }
}

/// The total of the first modules is never above the total of all.
pub proof fn lemma_total_grows(modules: Seq<RAM>, n: int)
    requires
        0 <= n <= modules.len(),
    ensures
        total_bytes(modules.subrange(0, n)) <= total_bytes(modules),
    decreases modules.len(),
{
    if n == modules.len() {
        assert(modules.subrange(0, n) =~= modules);
    } else {
        lemma_total_grows(modules.drop_last(), n);
        assert(modules.drop_last().subrange(0, n) =~= modules.subrange(0, n));
    }
}

/// A module whose capacity does not read as a number adds nothing to the
/// total, wherever it stands in the list.
pub proof fn lemma_unread_module_adds_nothing(modules: Seq<RAM>, i: int)
    requires
        0 <= i < modules.len(),
        modules[i].bytes() is None,
    ensures
        total_bytes(modules) == total_bytes(modules.remove(i)),
        modules[i].text() == Seq::<char>::empty(),
    decreases modules.len(),
{
    if i == modules.len() - 1 {
        assert(modules.remove(i) =~= modules.drop_last());
    } else {
        lemma_unread_module_adds_nothing(modules.drop_last(), i);
        assert(modules.remove(i).drop_last() =~= modules.drop_last().remove(i));
        assert(modules.remove(i).last() == modules.last());
    }
}

/// Adds up the capacities of the modules, leaving out those that do not read
/// as a number. `None` when the total does not fit in 128 bits.
pub fn total_capacity(modules: &Vec<RAM>) -> (total: Option<u128>)
    ensures
        total_bytes(modules@) <= u128::MAX ==> total == Some(total_bytes(modules@) as u128),
        total_bytes(modules@) > u128::MAX ==> total is None,
{
    let mut sum: u128 = 0;
    let mut i: usize = 0;
    while i < modules.len()
        invariant
            0 <= i <= modules.len(),
            sum == total_bytes(modules@.subrange(0, i as int)),
        decreases modules.len() - i,
    {
        let ghost next = modules@.subrange(0, i + 1);
        assert(next.drop_last() =~= modules@.subrange(0, i as int));
        assert(next.last() == modules@[i as int]);
        match parse_u128(modules[i].capacity.as_str()) {
            Some(bytes) => {
                if bytes > u128::MAX - sum {
                    proof {
                        lemma_total_grows(modules@, i + 1);
                    }
                    return None;
                }
                sum = sum + bytes;
            },
            None => {},
        }
        i += 1;
    }
    assert(modules@.subrange(0, i as int) =~= modules@);
    Some(sum)
}

} // verus!
