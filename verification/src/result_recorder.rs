//! The result recorder: folding decoded records into running aggregates.

use vstd::prelude::*;
use vstd::seq_lib::{to_multiset_contains, to_multiset_insert};
use vstd::string::StringExecFns;
use vstd::utf8::{encode_utf8, encode_utf8_decode_utf8};
use crate::rendered_result::{ClassAllocationStats, ClassRow, RenderedResult, ResultView};
use crate::text::{decimal, push_decimal};

verus! {

/// One decoded unit of the record stream, as far as aggregation looks at
/// it.
#[derive(Debug, PartialEq, Eq)]
pub enum Record {
    /// One instance of a class, of the given size in bytes.
    ClassAllocation { class_name: String, size: u64 },
    /// One string.
    StringEvent { content: String },
    /// One thread.
    ThreadEvent,
}

/// A record as plain values.
pub enum RecordView {
    ClassAllocation { class_name: Seq<char>, size: nat },
    StringEvent { content: Seq<char> },
    ThreadEvent,
}

impl View for Record {
    type V = RecordView;

    open spec fn view(&self) -> RecordView {
        match *self {
            Record::ClassAllocation { class_name, size } => RecordView::ClassAllocation {
                class_name: class_name@,
                size: size as nat,
            },
            Record::StringEvent { content } => RecordView::StringEvent { content: content@ },
            Record::ThreadEvent => RecordView::ThreadEvent,
        }
    }
}

/// The plain values of a list of records.
pub open spec fn record_views(records: Seq<Record>) -> Seq<RecordView> {
    records.map_values(|record: Record| record@)
}

/// The plain values of a list of rows.
pub open spec fn row_views(rows: Seq<ClassAllocationStats>) -> Seq<ClassRow> {
    rows.map_values(|row: ClassAllocationStats| row@)
}

/// A count that stops at the largest value a counter holds.
pub open spec fn capped(n: nat) -> nat {
    if n > u64::MAX {
        u64::MAX as nat
    } else {
        n
    }
}

/// The larger of two numbers.
pub open spec fn larger(a: nat, b: nat) -> nat {
    if a >= b {
        a
    } else {
        b
    }
}

/// The row for a name that is seen for the first time, with one item of
/// the given size.
pub open spec fn first_row(name: Seq<char>, size: nat) -> ClassRow {
    ClassRow {
        class_name: name,
        instance_count: 1,
        largest_allocation_bytes: size,
        allocation_size_bytes: size,
    }
}

/// A row with one more item of the given size counted in.
pub open spec fn bumped(row: ClassRow, size: nat) -> ClassRow {
    ClassRow {
        class_name: row.class_name,
        instance_count: capped(row.instance_count + 1),
        largest_allocation_bytes: larger(row.largest_allocation_bytes, size),
        allocation_size_bytes: capped(row.allocation_size_bytes + size),
    }
}

/// No two rows have the same name.
pub open spec fn distinct_names(rows: Seq<ClassRow>) -> bool {
    forall|i: int, j: int|
        0 <= i < j < rows.len() ==> (#[trigger] rows[i]).class_name != (#[trigger] rows[j]).class_name
}

/// Whether a row has the given name.
pub open spec fn has_name(rows: Seq<ClassRow>, name: Seq<char>) -> bool {
    exists|i: int| 0 <= i < rows.len() && (#[trigger] rows[i]).class_name == name
}

/// The rows with one more item of `name` counted in: in the row of that
/// name if there is one, else in a new row at the end.
pub open spec fn tallied(rows: Seq<ClassRow>, name: Seq<char>, size: nat) -> Seq<ClassRow>
    decreases rows.len(),
{
    if rows.len() == 0 {
        seq![first_row(name, size)]
    } else if rows[0].class_name == name {
        seq![bumped(rows[0], size)] + rows.drop_first()
    } else {
        seq![rows[0]] + tallied(rows.drop_first(), name, size)
    }
}

/// Counting into the row at `at`, where no earlier row has the name.
proof fn lemma_tallied_found(rows: Seq<ClassRow>, name: Seq<char>, size: nat, at: int)
    requires
        0 <= at < rows.len(),
        rows[at].class_name == name,
        forall|k: int| 0 <= k < at ==> (#[trigger] rows[k]).class_name != name,
    ensures
        tallied(rows, name, size) == rows.update(at, bumped(rows[at], size)),
    decreases at,
{
    if at == 0 {
        assert(seq![bumped(rows[0], size)] + rows.drop_first() =~= rows.update(
            0,
            bumped(rows[0], size),
        ));
    } else {
        let rest = rows.drop_first();
        assert forall|k: int| 0 <= k < at - 1 implies (#[trigger] rest[k]).class_name != name by {
            assert(rest[k] == rows[k + 1]);
        }
        lemma_tallied_found(rest, name, size, at - 1);
        assert(seq![rows[0]] + rest.update(at - 1, bumped(rest[at - 1], size)) =~= rows.update(
            at,
            bumped(rows[at], size),
        ));
    }
}

/// Counting a name that no row has.
proof fn lemma_tallied_new(rows: Seq<ClassRow>, name: Seq<char>, size: nat)
    requires
        forall|k: int| 0 <= k < rows.len() ==> (#[trigger] rows[k]).class_name != name,
    ensures
        tallied(rows, name, size) == rows.push(first_row(name, size)),
    decreases rows.len(),
{
    if rows.len() == 0 {
        assert(seq![first_row(name, size)] =~= rows.push(first_row(name, size)));
    } else {
        let rest = rows.drop_first();
        assert forall|k: int| 0 <= k < rest.len() implies (#[trigger] rest[k]).class_name
            != name by {
            assert(rest[k] == rows[k + 1]);
        }
        lemma_tallied_new(rest, name, size);
        assert(seq![rows[0]] + rest.push(first_row(name, size)) =~= rows.push(
            first_row(name, size),
        ));
    }
}

/// Counting in keeps names distinct and adds at most one row.
proof fn lemma_tallied_keeps_distinct(rows: Seq<ClassRow>, name: Seq<char>, size: nat)
    requires
        distinct_names(rows),
    ensures
        distinct_names(tallied(rows, name, size)),
        rows.len() <= tallied(rows, name, size).len() <= rows.len() + 1,
        has_name(tallied(rows, name, size), name),
{
    if has_name(rows, name) {
        let found = choose|i: int| 0 <= i < rows.len() && (#[trigger] rows[i]).class_name == name;
        assert forall|k: int| 0 <= k < found implies (#[trigger] rows[k]).class_name != name by {
        }
        lemma_tallied_found(rows, name, size, found);
        let after = rows.update(found, bumped(rows[found], size));
        assert(after[found].class_name == name);
        assert forall|i: int, j: int| 0 <= i < j < after.len() implies (#[trigger] after[i]).class_name
            != (#[trigger] after[j]).class_name by {
            assert(after[i].class_name == rows[i].class_name);
            assert(after[j].class_name == rows[j].class_name);
        }
    } else {
        lemma_tallied_new(rows, name, size);
        let after = rows.push(first_row(name, size));
        assert(after[rows.len() as int].class_name == name);
        assert forall|i: int, j: int| 0 <= i < j < after.len() implies (#[trigger] after[i]).class_name
            != (#[trigger] after[j]).class_name by {
            if j < rows.len() {
                assert(after[i] == rows[i]);
                assert(after[j] == rows[j]);
            } else {
                assert(after[i] == rows[i]);
            }
        }
    }
}

/// Counts one more item of `name` with the given size into `rows`.
pub fn tally(rows: &mut Vec<ClassAllocationStats>, name: &str, size: u64)
    ensures
        row_views(final(rows)@) == tallied(row_views(old(rows)@), name@, size as nat),
{
    let ghost before = row_views(rows@);
    let mut at: usize = 0;
    while at < rows.len()
        invariant
            at <= rows.len(),
            rows@ == old(rows)@,
            before == row_views(rows@),
            forall|k: int| 0 <= k < at ==> (#[trigger] before[k]).class_name != name@,
        decreases rows.len() - at,
    {
        if crate::text::same_text(rows[at].class_name.as_str(), name) {
            let row = &rows[at];
            let updated = ClassAllocationStats {
                class_name: row.class_name.clone(),
                instance_count: row.instance_count.saturating_add(1),
                largest_allocation_bytes: if row.largest_allocation_bytes >= size {
                    row.largest_allocation_bytes
                } else {
                    size
                },
                allocation_size_bytes: row.allocation_size_bytes.saturating_add(size),
            };
            proof {
                assert(before[at as int] == rows@[at as int]@);
                lemma_tallied_found(before, name@, size as nat, at as int);
                assert(updated@ == bumped(before[at as int], size as nat));
            }
            rows[at] = updated;
            assert(row_views(rows@) =~= before.update(at as int, updated@));
            return ;
        }
        assert(before[at as int] == rows@[at as int]@);
        at += 1;
    }
    proof {
        lemma_tallied_new(before, name@, size as nat);
    }
    let fresh = ClassAllocationStats {
        class_name: name.to_string(),
        instance_count: 1,
        largest_allocation_bytes: size,
        allocation_size_bytes: size,
    };
    rows.push(fresh);
    assert(row_views(rows@) =~= before.push(first_row(name@, size as nat)));
}

/// Whether `a` comes before `b` in the order of byte strings: at the first
/// place where they differ `a` has the smaller byte, or `a` ends there and
/// `b` goes on.
pub open spec fn bytes_before(a: Seq<u8>, b: Seq<u8>) -> bool
    decreases a.len(),
{
    if b.len() == 0 {
        false
    } else if a.len() == 0 {
        true
    } else if a[0] != b[0] {
        a[0] < b[0]
    } else {
        bytes_before(a.drop_first(), b.drop_first())
    }
}

/// Whether the name `a` comes before the name `b`: names are ordered as
/// their UTF-8 bytes are.
pub open spec fn name_before(a: Seq<char>, b: Seq<char>) -> bool {
    bytes_before(encode_utf8(a), encode_utf8(b))
}

/// Whether row `x` is ranked before row `y`: it has the larger cumulative
/// size, or the same and the name that comes first.
pub open spec fn ranks_before(x: ClassRow, y: ClassRow) -> bool {
    x.allocation_size_bytes > y.allocation_size_bytes || (x.allocation_size_bytes
        == y.allocation_size_bytes && name_before(x.class_name, y.class_name))
}

/// The place at which `row` goes into `sorted`: before the first row that
/// it is ranked before, or at the end.
pub open spec fn place_of(sorted: Seq<ClassRow>, row: ClassRow) -> int
    decreases sorted.len(),
{
    if sorted.len() == 0 || ranks_before(row, sorted[0]) {
        0
    } else {
        1 + place_of(sorted.drop_first(), row)
    }
}

/// The rows in ranked order: each row in turn is put in its place among
/// those ranked before.
pub open spec fn ranked(rows: Seq<ClassRow>) -> Seq<ClassRow>
    decreases rows.len(),
{
    if rows.len() == 0 {
        Seq::empty()
    } else {
        ranked(rows.drop_last()).insert(
            place_of(ranked(rows.drop_last()), rows.last()),
            rows.last(),
        )
    }
}

/// No row is ranked before a row that stands earlier.
pub open spec fn in_rank_order(rows: Seq<ClassRow>) -> bool {
    forall|i: int, j: int| 0 <= i < j < rows.len() ==> !ranks_before(rows[j], rows[i])
}

/// Byte strings that agree up to `n` compare as what follows does.
proof fn lemma_bytes_before_skip(a: Seq<u8>, b: Seq<u8>, n: int)
    requires
        0 <= n <= a.len(),
        n <= b.len(),
        forall|k: int| 0 <= k < n ==> a[k] == b[k],
    ensures
        bytes_before(a, b) == bytes_before(a.skip(n), b.skip(n)),
    decreases n,
{
    if n == 0 {
        assert(a.skip(0) =~= a);
        assert(b.skip(0) =~= b);
    } else {
        let ra = a.drop_first();
        let rb = b.drop_first();
        assert forall|k: int| 0 <= k < n - 1 implies ra[k] == rb[k] by {
            assert(ra[k] == a[k + 1]);
            assert(rb[k] == b[k + 1]);
        }
        lemma_bytes_before_skip(ra, rb, n - 1);
        assert(ra.skip(n - 1) =~= a.skip(n));
        assert(rb.skip(n - 1) =~= b.skip(n));
    }
}

/// No byte string comes before itself.
proof fn lemma_bytes_before_irreflexive(a: Seq<u8>)
    ensures
        !bytes_before(a, a),
    decreases a.len(),
{
    if a.len() > 0 {
        lemma_bytes_before_irreflexive(a.drop_first());
    }
}

/// The order of byte strings is transitive.
proof fn lemma_bytes_before_transitive(a: Seq<u8>, b: Seq<u8>, c: Seq<u8>)
    requires
        bytes_before(a, b),
        bytes_before(b, c),
    ensures
        bytes_before(a, c),
    decreases a.len(),
{
    if a.len() > 0 && b.len() > 0 && c.len() > 0 && a[0] == b[0] && b[0] == c[0] {
        lemma_bytes_before_transitive(a.drop_first(), b.drop_first(), c.drop_first());
    }
}

/// No row is ranked before itself, and ranking is transitive.
proof fn lemma_ranking_is_strict(x: ClassRow, y: ClassRow, z: ClassRow)
    ensures
        !ranks_before(x, x),
        ranks_before(x, y) && ranks_before(y, z) ==> ranks_before(x, z),
{
    lemma_bytes_before_irreflexive(encode_utf8(x.class_name));
    if ranks_before(x, y) && ranks_before(y, z) {
        if x.allocation_size_bytes == y.allocation_size_bytes && y.allocation_size_bytes
            == z.allocation_size_bytes {
            lemma_bytes_before_transitive(
                encode_utf8(x.class_name),
                encode_utf8(y.class_name),
                encode_utf8(z.class_name),
            );
        }
    }
}

/// What `place_of` gives: a place in `sorted` such that `row` is ranked
/// before none of the rows ahead of it, and before the row at it.
proof fn lemma_place_of(sorted: Seq<ClassRow>, row: ClassRow)
    ensures
        0 <= place_of(sorted, row) <= sorted.len(),
        forall|k: int| 0 <= k < place_of(sorted, row) ==> !ranks_before(row, #[trigger] sorted[k]),
        place_of(sorted, row) < sorted.len() ==> ranks_before(
            row,
            sorted[place_of(sorted, row)],
        ),
    decreases sorted.len(),
{
    if sorted.len() > 0 && !ranks_before(row, sorted[0]) {
        let rest = sorted.drop_first();
        lemma_place_of(rest, row);
        assert forall|k: int| 0 <= k < place_of(sorted, row) implies !ranks_before(
            row,
            #[trigger] sorted[k],
        ) by {
            if k > 0 {
                assert(sorted[k] == rest[k - 1]);
            }
        }
    }
}

/// A place that has what `lemma_place_of` states is the place that `place_of` gives.
proof fn lemma_place_is(sorted: Seq<ClassRow>, row: ClassRow, at: int)
    requires
        0 <= at <= sorted.len(),
        forall|k: int| 0 <= k < at ==> !ranks_before(row, #[trigger] sorted[k]),
        at < sorted.len() ==> ranks_before(row, sorted[at]),
    ensures
        place_of(sorted, row) == at,
    decreases sorted.len(),
{
    if sorted.len() > 0 && at > 0 {
        let rest = sorted.drop_first();
        assert(!ranks_before(row, sorted[0]));
        assert forall|k: int| 0 <= k < at - 1 implies !ranks_before(row, #[trigger] rest[k]) by {
            assert(rest[k] == sorted[k + 1]);
        }
        lemma_place_is(rest, row, at - 1);
    }
}

/// Ranked rows are in rank order and are the rows that were given, each as
/// often as it was given.
pub proof fn law_ranked_is_ordered_permutation(rows: Seq<ClassRow>)
    ensures
        in_rank_order(ranked(rows)),
        ranked(rows).to_multiset() == rows.to_multiset(),
        ranked(rows).len() == rows.len(),
    decreases rows.len(),
{
    if rows.len() == 0 {
        assert(rows =~= Seq::<ClassRow>::empty());
    } else {
        let before = ranked(rows.drop_last());
        let row = rows.last();
        let at = place_of(before, row);
        law_ranked_is_ordered_permutation(rows.drop_last());
        lemma_place_of(before, row);
        let after = before.insert(at, row);
        to_multiset_insert(before, at, row);
        assert(rows.drop_last().push(row) =~= rows);
        vstd::seq_lib::to_multiset_build(rows.drop_last(), row);
        assert forall|i: int, j: int| 0 <= i < j < after.len() implies !ranks_before(
            after[j],
            after[i],
        ) by {
            if j == at {
                assert(after[i] == before[i]);
            } else if i == at {
                assert(after[j] == before[j - 1]);
                if ranks_before(after[j], row) {
                    lemma_ranking_is_strict(after[j], row, before[at]);
                    lemma_ranking_is_strict(row, row, row);
                    if j - 1 > at {
                        assert(!ranks_before(before[j - 1], before[at]));
                    }
                }
            } else {
                let bi = if i < at { i } else { i - 1 };
                let bj = if j < at { j } else { j - 1 };
                assert(after[i] == before[bi]);
                assert(after[j] == before[bj]);
            }
        }
    }
}

/// Whether the name `a` comes before the name `b`.
fn comes_before(a: &str, b: &str) -> (before: bool)
    ensures
        before == name_before(a@, b@),
{
    let left = a.as_bytes();
    let right = b.as_bytes();
    let mut i: usize = 0;
    while i < left.len() && i < right.len()
        invariant
            i <= left.len(),
            i <= right.len(),
            left@ == encode_utf8(a@),
            right@ == encode_utf8(b@),
            forall|k: int| 0 <= k < i ==> left@[k] == right@[k],
        decreases left.len() - i,
    {
        if left[i] != right[i] {
            proof {
                lemma_bytes_before_skip(left@, right@, i as int);
            }
            return left[i] < right[i];
        }
        i += 1;
    }
    proof {
        lemma_bytes_before_skip(left@, right@, i as int);
    }
    i < right.len()
}

/// Whether row `x` is ranked before row `y`.
fn is_ranked_before(x: &ClassAllocationStats, y: &ClassAllocationStats) -> (before: bool)
    ensures
        before == ranks_before(x@, y@),
{
    x.allocation_size_bytes > y.allocation_size_bytes || (x.allocation_size_bytes
        == y.allocation_size_bytes && comes_before(x.class_name.as_str(), y.class_name.as_str()))
}

/// The rows in ranked order: by cumulative size, largest first, and by
/// name where sizes are equal.
pub fn rank(rows: &Vec<ClassAllocationStats>) -> (sorted: Vec<ClassAllocationStats>)
    ensures
        row_views(sorted@) == ranked(row_views(rows@)),
{
    let mut sorted: Vec<ClassAllocationStats> = Vec::new();
    let mut i: usize = 0;
    assert(row_views(rows@).take(0) =~= Seq::<ClassRow>::empty());
    while i < rows.len()
        invariant
            i <= rows.len(),
            sorted@.len() == i,
            row_views(sorted@) == ranked(row_views(rows@).take(i as int)),
        decreases rows.len() - i,
    {
        let row = &rows[i];
        let ghost before = row_views(sorted@);
        let mut at: usize = 0;
        while at < sorted.len() && !is_ranked_before(row, &sorted[at])
            invariant
                at <= sorted.len(),
                before == row_views(sorted@),
                forall|k: int| 0 <= k < at ==> !ranks_before(row@, #[trigger] before[k]),
            decreases sorted.len() - at,
        {
            at += 1;
        }
        let copy = ClassAllocationStats {
            class_name: row.class_name.clone(),
            instance_count: row.instance_count,
            largest_allocation_bytes: row.largest_allocation_bytes,
            allocation_size_bytes: row.allocation_size_bytes,
        };
        proof {
            lemma_place_is(before, row@, at as int);
            let upto = row_views(rows@).take(i + 1);
            assert(upto.drop_last() =~= row_views(rows@).take(i as int));
            assert(upto.last() == row@);
        }
        sorted.insert(at, copy);
        assert(row_views(sorted@) =~= before.insert(at as int, row@));
        i += 1;
    }
    assert(row_views(rows@).take(rows.len() as int) =~= row_views(rows@));
    sorted
}

/// The aggregates of a recorder as plain values.
pub struct RecorderView {
    /// Whether the strings seen are listed in the result.
    pub list_strings: bool,
    /// One row for each class seen, in the order of first appearance.
    pub classes: Seq<ClassRow>,
    /// One row for each distinct string seen, in the order of first
    /// appearance, with the number of times it occurred.
    pub strings: Seq<ClassRow>,
    pub total_objects: nat,
    pub thread_count: nat,
    pub string_count: nat,
    pub total_heap_bytes: nat,
}

impl RecorderView {
    /// The aggregates before any record.
    pub open spec fn empty(list_strings: bool) -> Self {
        RecorderView {
            list_strings,
            classes: Seq::empty(),
            strings: Seq::empty(),
            total_objects: 0,
            thread_count: 0,
            string_count: 0,
            total_heap_bytes: 0,
        }
    }

    /// The aggregates with `record` folded in.
    pub open spec fn after(self, record: RecordView) -> Self {
        match record {
            RecordView::ClassAllocation { class_name, size } => RecorderView {
                classes: tallied(self.classes, class_name, size),
                total_objects: capped(self.total_objects + 1),
                total_heap_bytes: capped(self.total_heap_bytes + size),
                ..self
            },
            RecordView::StringEvent { content } => RecorderView {
                strings: tallied(self.strings, content, 0),
                string_count: capped(self.string_count + 1),
                ..self
            },
            RecordView::ThreadEvent => RecorderView {
                thread_count: capped(self.thread_count + 1),
                ..self
            },
        }
    }

    /// The aggregates with `records` folded in, in their order.
    pub open spec fn folded(self, records: Seq<RecordView>) -> Self
        decreases records.len(),
    {
        if records.len() == 0 {
            self
        } else {
            self.folded(records.drop_last()).after(records.last())
        }
    }

    /// The summary text of the result.
    pub open spec fn summary(self) -> Seq<char> {
        "\nFile content summary:\n  Objects counted: "@ + decimal(self.total_objects)
            + "\n  Distinct classes: "@ + decimal(self.classes.len()) + "\n  Strings encountered: "@
            + decimal(self.string_count) + "\n  Heap bytes: "@ + decimal(self.total_heap_bytes)
    }

    /// The thread text of the result.
    pub open spec fn thread_info(self) -> Seq<char> {
        "\nThread information:\n  Threads discovered: "@ + decimal(self.thread_count)
    }

    /// The report on duplicated strings: none where every string seen was
    /// seen once.
    pub open spec fn duplicated_strings(self) -> Option<Seq<char>> {
        if self.string_count > self.strings.len() {
            Some(
                "\nFound "@ + decimal((self.string_count - self.strings.len()) as nat)
                    + " duplicated strings out of "@ + decimal(self.strings.len())
                    + " unique strings\n"@,
            )
        } else {
            None
        }
    }

    /// The listing of the strings seen, where it was asked for: a heading,
    /// then each distinct string on a line of its own.
    pub open spec fn captured_strings(self) -> Option<Seq<char>> {
        if self.list_strings {
            Some("\nList of Strings\n"@ + lines(self.strings))
        } else {
            None
        }
    }

    /// The final result: the texts, and the class rows in ranked order.
    pub open spec fn rendered(self) -> ResultView {
        ResultView {
            summary: self.summary(),
            thread_info: self.thread_info(),
            memory_usage: ranked(self.classes),
            duplicated_strings: self.duplicated_strings(),
            captured_strings: self.captured_strings(),
        }
    }
}

/// The names of `rows`, each closed by a line feed.
pub open spec fn lines(rows: Seq<ClassRow>) -> Seq<char>
    decreases rows.len(),
{
    if rows.len() == 0 {
        Seq::empty()
    } else {
        lines(rows.drop_last()) + rows.last().class_name.push('\n')
    }
}

/// Folds record batches into running aggregates and renders the final
/// result.
pub struct ResultRecorder {
    list_strings: bool,
    classes: Vec<ClassAllocationStats>,
    strings: Vec<ClassAllocationStats>,
    total_objects: u64,
    thread_count: u64,
    string_count: u64,
    total_heap_bytes: u64,
}

impl View for ResultRecorder {
    type V = RecorderView;

    closed spec fn view(&self) -> RecorderView {
        RecorderView {
            list_strings: self.list_strings,
            classes: row_views(self.classes@),
            strings: row_views(self.strings@),
            total_objects: self.total_objects as nat,
            thread_count: self.thread_count as nat,
            string_count: self.string_count as nat,
            total_heap_bytes: self.total_heap_bytes as nat,
        }
    }
}

impl ResultRecorder {
    /// There is one row for each class and one for each distinct string,
    /// and no more distinct strings than strings.
    pub closed spec fn wf(&self) -> bool {
        &&& distinct_names(self@.classes)
        &&& distinct_names(self@.strings)
        &&& self@.strings.len() <= self@.string_count
    }

    /// A recorder that has seen nothing.
    pub fn new(list_strings: bool) -> (recorder: Self)
        ensures
            recorder.wf(),
            recorder@ == RecorderView::empty(list_strings),
    {
        let recorder = ResultRecorder {
            list_strings,
            classes: Vec::new(),
            strings: Vec::new(),
            total_objects: 0,
            thread_count: 0,
            string_count: 0,
            total_heap_bytes: 0,
        };
        assert(recorder@.classes =~= Seq::<ClassRow>::empty());
        assert(recorder@.strings =~= Seq::<ClassRow>::empty());
        recorder
    }

    /// Folds one record in.
    pub fn record(&mut self, record: &Record)
        requires
            old(self).wf(),
        ensures
            final(self).wf(),
            final(self)@ == old(self)@.after(record@),
    {
        match record {
            Record::ClassAllocation { class_name, size } => {
                proof {
                    lemma_tallied_keeps_distinct(self@.classes, class_name@, *size as nat);
                }
                tally(&mut self.classes, class_name.as_str(), *size);
                self.total_objects = self.total_objects.saturating_add(1);
                self.total_heap_bytes = self.total_heap_bytes.saturating_add(*size);
            },
            Record::StringEvent { content } => {
                proof {
                    lemma_tallied_keeps_distinct(self@.strings, content@, 0);
                }
                tally(&mut self.strings, content.as_str(), 0);
                self.string_count = self.string_count.saturating_add(1);
                assert(self.strings.len() <= u64::MAX);
            },
            Record::ThreadEvent => {
                self.thread_count = self.thread_count.saturating_add(1);
            },
        }
    }

    /// Folds a batch in, record by record, and leaves the container empty
    /// for reuse.
    pub fn record_records(&mut self, batch: &mut Vec<Record>)
        requires
            old(self).wf(),
        ensures
            final(self).wf(),
            final(self)@ == old(self)@.folded(record_views(old(batch)@)),
            final(batch)@.len() == 0,
    {
        let mut i: usize = 0;
        assert(record_views(batch@).take(0) =~= Seq::<RecordView>::empty());
        while i < batch.len()
            invariant
                i <= batch.len(),
                batch@ == old(batch)@,
                self.wf(),
                self@ == old(self)@.folded(record_views(batch@).take(i as int)),
            decreases batch.len() - i,
        {
            proof {
                let upto = record_views(batch@).take(i + 1);
                assert(upto.drop_last() =~= record_views(batch@).take(i as int));
                assert(upto.last() == batch@[i as int]@);
            }
            self.record(&batch[i]);
            i += 1;
        }
        assert(record_views(batch@).take(batch.len() as int) =~= record_views(batch@));
        batch.clear();
    }

    /// The final result: the texts, and the class rows ranked by
    /// cumulative size, largest first, and by name where sizes are equal.
    pub fn finish(self) -> (result: RenderedResult)
        requires
            self.wf(),
        ensures
            result@ == self@.rendered(),
    {
        let memory_usage = rank(&self.classes);
        let mut summary = String::new();
        summary.append("\nFile content summary:\n  Objects counted: ");
        push_decimal(&mut summary, self.total_objects);
        summary.append("\n  Distinct classes: ");
        push_decimal(&mut summary, self.classes.len() as u64);
        summary.append("\n  Strings encountered: ");
        push_decimal(&mut summary, self.string_count);
        summary.append("\n  Heap bytes: ");
        push_decimal(&mut summary, self.total_heap_bytes);
        let mut thread_info = String::new();
        thread_info.append("\nThread information:\n  Threads discovered: ");
        push_decimal(&mut thread_info, self.thread_count);
        let distinct = self.strings.len() as u64;
        let duplicated_strings = if self.string_count > distinct {
            let mut text = String::new();
            text.append("\nFound ");
            push_decimal(&mut text, self.string_count - distinct);
            text.append(" duplicated strings out of ");
            push_decimal(&mut text, distinct);
            text.append(" unique strings\n");
            Some(text)
        } else {
            None
        };
        let captured_strings = if self.list_strings {
            let mut text = String::new();
            text.append("\nList of Strings\n");
            let mut i: usize = 0;
            assert(row_views(self.strings@).take(0) =~= Seq::<ClassRow>::empty());
            while i < self.strings.len()
                invariant
                    i <= self.strings.len(),
                    text@ == "\nList of Strings\n"@ + lines(row_views(self.strings@).take(i as int)),
                decreases self.strings.len() - i,
            {
                proof {
                    let upto = row_views(self.strings@).take(i + 1);
                    assert(upto.drop_last() =~= row_views(self.strings@).take(i as int));
                    assert(upto.last() == self.strings@[i as int]@);
                }
                text.append(self.strings[i].class_name.as_str());
                text.push('\n');
                i += 1;
            }
            assert(row_views(self.strings@).take(self.strings.len() as int) =~= row_views(
                self.strings@,
            ));
            Some(text)
        } else {
            None
        };
        let result = RenderedResult {
            summary,
            thread_info,
            memory_usage,
            duplicated_strings,
            captured_strings,
        };
        assert(result@.memory_usage =~= ranked(self@.classes));
        assert(result@.summary =~= self@.summary());
        assert(result@.thread_info =~= self@.thread_info());
        result
    }
}

/// A recorder holds one row for each class seen and one for each distinct
/// string seen.
pub proof fn law_one_row_per_name(recorder: ResultRecorder)
    requires
        recorder.wf(),
    ensures
        distinct_names(recorder@.classes),
        distinct_names(recorder@.strings),
{
}

/// Different byte strings are ordered one way or the other.
proof fn lemma_bytes_before_total(a: Seq<u8>, b: Seq<u8>)
    requires
        a != b,
    ensures
        bytes_before(a, b) || bytes_before(b, a),
    decreases a.len(),
{
    if a.len() == 0 || b.len() == 0 {
        if a.len() == 0 && b.len() == 0 {
            assert(a =~= b);
        }
    } else if a[0] == b[0] {
        if a.drop_first() == b.drop_first() {
            assert(a =~= seq![a[0]] + a.drop_first());
            assert(b =~= seq![b[0]] + b.drop_first());
        }
        lemma_bytes_before_total(a.drop_first(), b.drop_first());
    }
}

/// Of two rows with different names one is ranked before the other.
proof fn lemma_different_names_are_ranked(x: ClassRow, y: ClassRow)
    requires
        x.class_name != y.class_name,
    ensures
        ranks_before(x, y) || ranks_before(y, x),
{
    encode_utf8_decode_utf8(x.class_name);
    encode_utf8_decode_utf8(y.class_name);
    lemma_bytes_before_total(encode_utf8(x.class_name), encode_utf8(y.class_name));
}

/// Ranking keeps the rows and keeps their names distinct.
proof fn lemma_ranked_members(rows: Seq<ClassRow>)
    ensures
        forall|x: ClassRow| ranked(rows).contains(x) <==> rows.contains(x),
        distinct_names(rows) ==> distinct_names(ranked(rows)),
    decreases rows.len(),
{
    law_ranked_is_ordered_permutation(rows);
    assert forall|x: ClassRow| ranked(rows).contains(x) <==> rows.contains(x) by {
        to_multiset_contains(ranked(rows), x);
        to_multiset_contains(rows, x);
    }
    if rows.len() > 0 && distinct_names(rows) {
        let earlier = rows.drop_last();
        let before = ranked(earlier);
        let row = rows.last();
        let at = place_of(before, row);
        lemma_ranked_members(earlier);
        lemma_place_of(before, row);
        before.insert_ensures(at, row);
        let after = before.insert(at, row);
        assert forall|k: int| 0 <= k < before.len() implies (#[trigger] before[k]).class_name
            != row.class_name by {
            assert(before.contains(before[k]));
            assert(earlier.contains(before[k]));
            let m = choose|m: int| 0 <= m < earlier.len() && earlier[m] == before[k];
            assert(rows[m].class_name != rows[rows.len() - 1].class_name);
        }
        assert forall|i: int, j: int| 0 <= i < j < after.len() implies (#[trigger] after[i]).class_name
            != (#[trigger] after[j]).class_name by {
            let bi = if i < at { i } else { i - 1 };
            let bj = if j < at { j } else { j - 1 };
            if i != at {
                assert(after[i] == before[bi]) by {
                    if i > at {
                        assert(before.insert(at, row)[(i - 1) + 1] == before[i - 1]);
                    }
                }
            }
            if j != at {
                assert(after[j] == before[bj]) by {
                    if j > at {
                        assert(before.insert(at, row)[(j - 1) + 1] == before[j - 1]);
                    }
                }
            }
            if i != at && j != at {
                assert(before[bi].class_name != before[bj].class_name);
            }
        }
    }
}

/// Rows with distinct names have one rank order only.
proof fn lemma_rank_order_unique(s: Seq<ClassRow>, t: Seq<ClassRow>)
    requires
        in_rank_order(s),
        in_rank_order(t),
        distinct_names(s),
        distinct_names(t),
        forall|x: ClassRow| s.contains(x) <==> t.contains(x),
    ensures
        s == t,
    decreases s.len(),
{
    if s.len() == 0 {
        if t.len() > 0 {
            assert(t.contains(t[0]));
            assert(s.contains(t[0]));
        }
        assert(s =~= t);
    } else {
        assert(s.contains(s[0]));
        assert(t.contains(s[0]));
        let j = choose|j: int| 0 <= j < t.len() && t[j] == s[0];
        assert(t.contains(t[0]));
        assert(s.contains(t[0]));
        let i = choose|i: int| 0 <= i < s.len() && s[i] == t[0];
        if s[0] != t[0] {
            assert(!ranks_before(t[j], t[0]));
            assert(!ranks_before(s[i], s[0]));
            assert(s[0].class_name != s[i].class_name);
            lemma_different_names_are_ranked(s[0], t[0]);
            assert(false);
        }
        let s1 = s.drop_first();
        let t1 = t.drop_first();
        assert forall|x: ClassRow| s1.contains(x) <==> t1.contains(x) by {
            if s1.contains(x) {
                let k = choose|k: int| 0 <= k < s1.len() && s1[k] == x;
                assert(s[k + 1] == x);
                assert(s.contains(x));
                assert(t.contains(x));
                let m = choose|m: int| 0 <= m < t.len() && t[m] == x;
                assert(s[0].class_name != s[k + 1].class_name);
                assert(t1[m - 1] == x);
            }
            if t1.contains(x) {
                let k = choose|k: int| 0 <= k < t1.len() && t1[k] == x;
                assert(t[k + 1] == x);
                assert(t.contains(x));
                assert(s.contains(x));
                let m = choose|m: int| 0 <= m < s.len() && s[m] == x;
                assert(t[0].class_name != t[k + 1].class_name);
                assert(s1[m - 1] == x);
            }
        }
        assert forall|a: int, b: int| 0 <= a < b < s1.len() implies !ranks_before(
            s1[b],
            s1[a],
        ) by {
            assert(!ranks_before(s[b + 1], s[a + 1]));
        }
        assert forall|a: int, b: int| 0 <= a < b < t1.len() implies !ranks_before(
            t1[b],
            t1[a],
        ) by {
            assert(!ranks_before(t[b + 1], t[a + 1]));
        }
        assert forall|a: int, b: int| 0 <= a < b < s1.len() implies (#[trigger] s1[a]).class_name
            != (#[trigger] s1[b]).class_name by {
            assert(s[a + 1].class_name != s[b + 1].class_name);
        }
        assert forall|a: int, b: int| 0 <= a < b < t1.len() implies (#[trigger] t1[a]).class_name
            != (#[trigger] t1[b]).class_name by {
            assert(t[a + 1].class_name != t[b + 1].class_name);
        }
        lemma_rank_order_unique(s1, t1);
        assert(s =~= seq![s[0]] + s1);
        assert(t =~= seq![t[0]] + t1);
    }
}

/// The ranked rows do not depend on the order in which classes were first
/// seen: two tables with the same rows, one row for each name, are ranked
/// alike.
pub proof fn law_ranking_ignores_arrival_order(a: Seq<ClassRow>, b: Seq<ClassRow>)
    requires
        distinct_names(a),
        distinct_names(b),
        forall|x: ClassRow| a.contains(x) <==> b.contains(x),
    ensures
        ranked(a) == ranked(b),
{
    lemma_ranked_members(a);
    lemma_ranked_members(b);
    law_ranked_is_ordered_permutation(a);
    law_ranked_is_ordered_permutation(b);
    assert forall|x: ClassRow| ranked(a).contains(x) <==> ranked(b).contains(x) by {
        assert(ranked(a).contains(x) <==> a.contains(x));
        assert(ranked(b).contains(x) <==> b.contains(x));
    }
    lemma_rank_order_unique(ranked(a), ranked(b));
}

/// The number of instances of the class `name` among `records`.
pub open spec fn instances_of(records: Seq<RecordView>, name: Seq<char>) -> nat
    decreases records.len(),
{
    if records.len() == 0 {
        0
    } else {
        instances_of(records.drop_last(), name) + (match records.last() {
            RecordView::ClassAllocation { class_name, .. } => if class_name == name {
                1nat
            } else {
                0nat
            },
            _ => 0nat,
        })
    }
}

/// The row with the given name, if there is one.
pub open spec fn row_of(rows: Seq<ClassRow>, name: Seq<char>) -> Option<ClassRow>
    decreases rows.len(),
{
    if rows.len() == 0 {
        None
    } else if rows[0].class_name == name {
        Some(rows[0])
    } else {
        row_of(rows.drop_first(), name)
    }
}

/// Counting an item in changes the row of its name and no other.
proof fn lemma_tallied_row(rows: Seq<ClassRow>, name: Seq<char>, size: nat, other: Seq<char>)
    ensures
        other != name ==> row_of(tallied(rows, name, size), other) == row_of(rows, other),
        row_of(tallied(rows, name, size), name) == Some(
            match row_of(rows, name) {
                Some(row) => bumped(row, size),
                None => first_row(name, size),
            },
        ),
    decreases rows.len(),
{
    let after = tallied(rows, name, size);
    reveal_with_fuel(row_of, 2);
    if rows.len() == 0 {
        assert(after[0] == first_row(name, size));
        assert(after.drop_first() =~= Seq::<ClassRow>::empty());
    } else if rows[0].class_name == name {
        assert(after[0] == bumped(rows[0], size));
        assert(after.drop_first() =~= rows.drop_first());
    } else {
        lemma_tallied_row(rows.drop_first(), name, size, other);
        assert(after[0] == rows[0]);
        assert(after.drop_first() =~= tallied(rows.drop_first(), name, size));
    }
}

/// A class is given a row when its first instance is folded in, and the
/// row counts every instance of it: after `records`, the row of a class
/// with `n` instances among them has instance count `n`, as far as the
/// counter goes.
pub proof fn law_instances_are_counted(
    list_strings: bool,
    records: Seq<RecordView>,
    name: Seq<char>,
)
    ensures
        ({
            let rows = RecorderView::empty(list_strings).folded(records).classes;
            let n = instances_of(records, name);
            &&& n == 0 ==> row_of(rows, name) is None
            &&& n > 0 ==> row_of(rows, name) is Some && row_of(rows, name).unwrap().instance_count
                == capped(n)
        }),
    decreases records.len(),
{
    if records.len() > 0 {
        let earlier = records.drop_last();
        law_instances_are_counted(list_strings, earlier, name);
        let rows = RecorderView::empty(list_strings).folded(earlier).classes;
        match records.last() {
            RecordView::ClassAllocation { class_name, size } => {
                lemma_tallied_row(rows, class_name, size, name);
            },
            _ => {},
        }
    }
}

/// What `records` add up to: the number of class instances, their sizes
/// together, the number of strings and the number of threads.
pub struct Totals {
    pub objects: nat,
    pub heap_bytes: nat,
    pub strings: nat,
    pub threads: nat,
}

/// The totals of `records`.
pub open spec fn totals_of(records: Seq<RecordView>) -> Totals
    decreases records.len(),
{
    if records.len() == 0 {
        Totals { objects: 0, heap_bytes: 0, strings: 0, threads: 0 }
    } else {
        let earlier = totals_of(records.drop_last());
        match records.last() {
            RecordView::ClassAllocation { class_name, size } => Totals {
                objects: earlier.objects + 1,
                heap_bytes: earlier.heap_bytes + size,
                ..earlier
            },
            RecordView::StringEvent { .. } => Totals { strings: earlier.strings + 1, ..earlier },
            RecordView::ThreadEvent => Totals { threads: earlier.threads + 1, ..earlier },
        }
    }
}

/// The running totals of a recorder are the totals of the records folded
/// in, as far as the counters go.
pub proof fn law_totals_add_up(list_strings: bool, records: Seq<RecordView>)
    ensures
        ({
            let after = RecorderView::empty(list_strings).folded(records);
            let totals = totals_of(records);
            &&& after.total_objects == capped(totals.objects)
            &&& after.total_heap_bytes == capped(totals.heap_bytes)
            &&& after.string_count == capped(totals.strings)
            &&& after.thread_count == capped(totals.threads)
            &&& after.list_strings == list_strings
        }),
    decreases records.len(),
{
    if records.len() > 0 {
        law_totals_add_up(list_strings, records.drop_last());
    }
}

} // verus!
