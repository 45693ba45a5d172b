//! The lines of the report: a label of twelve columns, then the value.

use crate::records::{Baseboard, CPU};
use crate::size::{format_size, size_text};
use vstd::prelude::*;
use vstd::string::*;

verus! {

/// The processor shown: the first of the list, or the empty record.
pub open spec fn shown_processor(processors: Seq<CPU>) -> Seq<char> {
    if processors.len() > 0 {
        processors[0].text()
    } else {
        Seq::<char>::empty()
    }
}

/// The baseboard shown: the first of the list, or the empty record, whose
/// text is the space between its two empty fields.
pub open spec fn shown_baseboard(boards: Seq<Baseboard>) -> Seq<char> {
    if boards.len() > 0 {
        boards[0].text()
    } else {
        " "@
    }
}

/// The processor line.
pub open spec fn cpu_line_text(processors: Seq<CPU>) -> Seq<char> {
    "CPU:        "@ + shown_processor(processors)
}

/// The baseboard line.
pub open spec fn baseboard_line_text(boards: Seq<Baseboard>) -> Seq<char> {
    "Baseboard:  "@ + shown_baseboard(boards)
}

/// The memory line.
pub open spec fn ram_line_text(total: u128) -> Seq<char> {
    "RAM:        "@ + size_text(total)
}

/// The first line of an adapter.
pub open spec fn gpu_line_text(description: Seq<char>) -> Seq<char> {
    "GPU:        "@ + description
}

/// The second line of an adapter.
pub open spec fn gpu_ram_line_text(memory: u64) -> Seq<char> {
    "GPU RAM:    "@ + size_text(memory as u128)
}

/// A label followed by a value.
pub fn labelled(label: &str, value: &str) -> (line: String)
    ensures
        line@ == label@ + value@,
{
    let mut line = String::from_str(label);
    line.append(value);
    line
}

/// The processor line: the first processor of the list. An empty list gives
/// the label with nothing after it.
pub fn cpu_line(processors: &Vec<CPU>) -> (line: String)
    ensures
        line@ == cpu_line_text(processors@),
{
    let shown = if processors.len() > 0 {
        processors[0].to_string()
    } else {
        CPU::default().to_string()
    };
    labelled("CPU:        ", shown.as_str())
}

/// The baseboard line: the first baseboard of the list, or the empty record.
pub fn baseboard_line(boards: &Vec<Baseboard>) -> (line: String)
    ensures
        line@ == baseboard_line_text(boards@),
{
    let shown = if boards.len() > 0 {
        boards[0].to_string()
    } else {
        let none = Baseboard::default();
        assert(none.text() =~= " "@);
        none.to_string()
    };
    labelled("Baseboard:  ", shown.as_str())
}

/// The memory line, for the total of all modules.
pub fn ram_line(total: u128) -> (line: String)
    ensures
        line@ == ram_line_text(total),
{
    labelled("RAM:        ", format_size(total).as_str())
}

/// The first line of an adapter: the driver's description.
pub fn gpu_line(description: &str) -> (line: String)
    ensures
        line@ == gpu_line_text(description@),
{
    labelled("GPU:        ", description)
}

/// The second line of an adapter: the size of its memory.
pub fn gpu_ram_line(memory: u64) -> (line: String)
    ensures
        line@ == gpu_ram_line_text(memory),
{
    labelled("GPU RAM:    ", format_size(memory as u128).as_str())
}

} // verus!
