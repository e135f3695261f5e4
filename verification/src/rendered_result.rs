//! The result model that every path ends in.

use vstd::prelude::*;

verus! {

/// The rollup of one class.
#[derive(Debug, PartialEq, Eq)]
pub struct ClassAllocationStats {
    pub class_name: String,
    pub instance_count: u64,
    pub largest_allocation_bytes: u64,
    pub allocation_size_bytes: u64,
}

/// A class rollup as plain values.
pub struct ClassRow {
    pub class_name: Seq<char>,
    pub instance_count: nat,
    pub largest_allocation_bytes: nat,
    pub allocation_size_bytes: nat,
}

impl View for ClassAllocationStats {
    type V = ClassRow;

    open spec fn view(&self) -> ClassRow {
        ClassRow {
            class_name: self.class_name@,
            instance_count: self.instance_count as nat,
            largest_allocation_bytes: self.largest_allocation_bytes as nat,
            allocation_size_bytes: self.allocation_size_bytes as nat,
        }
    }
}

impl ClassAllocationStats {
    /// A rollup with the given values.
    pub fn new(
        class_name: String,
        instance_count: u64,
        largest_allocation_bytes: u64,
        allocation_size_bytes: u64,
    ) -> (stats: Self)
        ensures
            stats.class_name == class_name,
            stats.instance_count == instance_count,
            stats.largest_allocation_bytes == largest_allocation_bytes,
            stats.allocation_size_bytes == allocation_size_bytes,
    {
        ClassAllocationStats {
            class_name,
            instance_count,
            largest_allocation_bytes,
            allocation_size_bytes,
        }
    }
}

/// The final answer for one dump.
#[derive(Debug, PartialEq, Eq)]
pub struct RenderedResult {
    pub summary: String,
    pub thread_info: String,
    pub memory_usage: Vec<ClassAllocationStats>,
    pub duplicated_strings: Option<String>,
    pub captured_strings: Option<String>,
}

/// A final answer as plain values.
pub struct ResultView {
    pub summary: Seq<char>,
    pub thread_info: Seq<char>,
    pub memory_usage: Seq<ClassRow>,
    pub duplicated_strings: Option<Seq<char>>,
    pub captured_strings: Option<Seq<char>>,
}

/// The plain text of an optional string.
pub open spec fn optional_text(text: Option<String>) -> Option<Seq<char>> {
    match text {
        Some(t) => Some(t@),
        None => None,
    }
}

impl View for RenderedResult {
    type V = ResultView;

    open spec fn view(&self) -> ResultView {
        ResultView {
            summary: self.summary@,
            thread_info: self.thread_info@,
            memory_usage: self.memory_usage@.map_values(|row: ClassAllocationStats| row@),
            duplicated_strings: optional_text(self.duplicated_strings),
            captured_strings: optional_text(self.captured_strings),
        }
    }
}

} // verus!
