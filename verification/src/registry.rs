//! The display-adapter class of the configuration database: where it lives,
//! which of its child keys stand for an adapter, and which values are read.

use crate::decimal::is_digit;
use vstd::prelude::*;
use vstd::string::*;

verus! {

/// A name stands for an adapter instance when it is exactly four characters
/// long and each of them is a decimal digit.
pub open spec fn is_adapter_name(name: Seq<char>) -> bool {
    &&& name.len() == 4
    &&& forall|i: int| 0 <= i < name.len() ==> is_digit(#[trigger] name[i])
}

/// Whether a child key of the display class is an adapter instance.
pub fn is_adapter_subkey(name: &str) -> (r: bool)
    ensures
        r == is_adapter_name(name@),
{
    if name.unicode_len() != 4 {
        return false;
    }
    let mut i: usize = 0;
    while i < 4
        invariant
            name@.len() == 4,
            0 <= i <= 4,
            forall|j: int| 0 <= j < i ==> is_digit(#[trigger] name@[j]),
        decreases 4 - i,
    {
        let c = name.get_char(i);
        if !('0' <= c && c <= '9') {
            return false;
        }
        i += 1;
    }
    true
}

/// The texts of a list of strings, in order.
pub open spec fn texts(strings: Seq<String>) -> Seq<Seq<char>> {
    strings.map_values(|s: String| s@)
}

/// The adapter instances among the child keys of the display class, in the
/// order in which the keys were listed. Other names are left out silently.
pub open spec fn adapter_names(names: Seq<Seq<char>>) -> Seq<Seq<char>> {
    names.filter(|name: Seq<char>| is_adapter_name(name))
}

/// A name is among the adapter instances exactly when it was listed and is
/// four decimal digits.
pub proof fn lemma_adapter_names_membership(names: Seq<Seq<char>>, name: Seq<char>)
    ensures
        adapter_names(names).contains(name) <==> names.contains(name) && is_adapter_name(name),
{
    let keep = |name: Seq<char>| is_adapter_name(name);
    if adapter_names(names).contains(name) {
        let i = choose|i: int| 0 <= i < adapter_names(names).len() && adapter_names(names)[i] == name;
        names.lemma_filter_pred(keep, i);
        names.lemma_filter_contains_rev(keep, name);
    }
    if names.contains(name) && is_adapter_name(name) {
        let i = choose|i: int| 0 <= i < names.len() && names[i] == name;
        names.lemma_filter_contains(keep, i);
    }
}

/// Picks the adapter instances out of the child keys of the display class.
pub fn adapter_subkeys(names: &Vec<String>) -> (kept: Vec<String>)
    ensures
        texts(kept@) == adapter_names(texts(names@)),
{
    let mut kept: Vec<String> = Vec::new();
    let mut i: usize = 0;
    proof {
        reveal(Seq::filter);
        assert(texts(names@.subrange(0, 0)) =~= Seq::<Seq<char>>::empty());
        assert(texts(kept@) =~= Seq::<Seq<char>>::empty());
    }
    while i < names.len()
        invariant
            0 <= i <= names.len(),
            texts(kept@) == adapter_names(texts(names@.subrange(0, i as int))),
        decreases names.len() - i,
    {
        let ghost before = texts(names@.subrange(0, i as int));
        let ghost after = texts(names@.subrange(0, i + 1));
        let ghost kept_before = kept@;
        proof {
            reveal(Seq::filter);
            assert(after.drop_last() =~= before);
            assert(after.last() == names@[i as int]@);
        }
        if is_adapter_subkey(names[i].as_str()) {
            kept.push(names[i].clone());
            assert(texts(kept@) =~= texts(kept_before).push(names@[i as int]@));
        }
        i += 1;
    }
    assert(names@.subrange(0, i as int) =~= names@);
    kept
}

/// The key of the display-adapter class, below the local machine's root.
pub fn display_class_path() -> (path: &'static str)
    ensures
        path@ == "SYSTEM\\CurrentControlSet\\Control\\Class\\{4d36e968-e325-11ce-bfc1-08002be10318}"@,
{
    "SYSTEM\\CurrentControlSet\\Control\\Class\\{4d36e968-e325-11ce-bfc1-08002be10318}"
}

/// The value of an adapter instance that holds the driver's description, a
/// string.
pub fn description_value() -> (name: &'static str)
    ensures
        name@ == "DriverDesc"@,
{
    "DriverDesc"
}

/// The value of an adapter instance that holds the size of its memory in
/// bytes, an unsigned 64-bit integer.
pub fn memory_size_value() -> (name: &'static str)
    ensures
        name@ == "HardwareInformation.qwMemorySize"@,
{
    "HardwareInformation.qwMemorySize"
}

} // verus!
