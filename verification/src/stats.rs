//! Statistics tracking for the indexing process.

use vstd::prelude::*;
use crate::count_table::{count_of, lemma_count_after_increment, CountTable};
use crate::paths::{extension, extension_of};
use crate::text::{decimal_text, push_u64};
use crate::text_order::{insert_sorted, strictly_sorted, texts};

verus! {

/// What the statistics hold: eight counters and three per-extension tables.
pub struct IndexingStatsView {
    pub files_discovered: usize,
    pub files_processed: usize,
    pub files_skipped: usize,
    pub files_errored: usize,
    pub repositories_processed: usize,
    pub repositories_errored: usize,
    pub definitions_found: usize,
    pub references_found: usize,
    pub file_types_processed: Map<Seq<char>, usize>,
    pub file_types_skipped: Map<Seq<char>, usize>,
    pub file_types_errored: Map<Seq<char>, usize>,
}

/// Statistics tracking for the indexing process
pub struct IndexingStats {
    files_discovered: usize,
    files_processed: usize,
    files_skipped: usize,
    files_errored: usize,
    repositories_processed: usize,
    repositories_errored: usize,
    definitions_found: usize,
    references_found: usize,
    // File type statistics (extension -> count)
    file_types_processed: CountTable,
    file_types_skipped: CountTable,
    file_types_errored: CountTable,
}

impl View for IndexingStats {
    type V = IndexingStatsView;

    closed spec fn view(&self) -> IndexingStatsView {
        IndexingStatsView {
            files_discovered: self.files_discovered,
            files_processed: self.files_processed,
            files_skipped: self.files_skipped,
            files_errored: self.files_errored,
            repositories_processed: self.repositories_processed,
            repositories_errored: self.repositories_errored,
            definitions_found: self.definitions_found,
            references_found: self.references_found,
            file_types_processed: self.file_types_processed@,
            file_types_skipped: self.file_types_skipped@,
            file_types_errored: self.file_types_errored@,
        }
    }
}

/// The counter after adding `n`, wrapping around as the atomic counters of
/// the statistics do.
pub open spec fn wrapped_add(c: usize, n: usize) -> usize {
    if c + n <= usize::MAX { (c + n) as usize } else { (c + n - usize::MAX - 1) as usize }
}

/// The statistics after counting one processed file, under the extension
/// `ext` when there is one: the total goes up by one (wrapping), and so
/// does the count of the extension.
pub open spec fn counted_processed(v: IndexingStatsView, ext: Option<Seq<char>>) -> IndexingStatsView {
    match ext {
        None => IndexingStatsView { files_processed: wrapped_add(v.files_processed, 1), ..v },
        Some(e) => IndexingStatsView {
            files_processed: wrapped_add(v.files_processed, 1),
            file_types_processed: v.file_types_processed.insert(e, (count_of(v.file_types_processed, e) + 1) as usize),
            ..v
        },
    }
}

/// The statistics after counting one skipped file, as `counted_processed`.
pub open spec fn counted_skipped(v: IndexingStatsView, ext: Option<Seq<char>>) -> IndexingStatsView {
    match ext {
        None => IndexingStatsView { files_skipped: wrapped_add(v.files_skipped, 1), ..v },
        Some(e) => IndexingStatsView {
            files_skipped: wrapped_add(v.files_skipped, 1),
            file_types_skipped: v.file_types_skipped.insert(e, (count_of(v.file_types_skipped, e) + 1) as usize),
            ..v
        },
    }
}

/// The statistics after counting one failed file, as `counted_processed`.
pub open spec fn counted_errored(v: IndexingStatsView, ext: Option<Seq<char>>) -> IndexingStatsView {
    match ext {
        None => IndexingStatsView { files_errored: wrapped_add(v.files_errored, 1), ..v },
        Some(e) => IndexingStatsView {
            files_errored: wrapped_add(v.files_errored, 1),
            file_types_errored: v.file_types_errored.insert(e, (count_of(v.file_types_errored, e) + 1) as usize),
            ..v
        },
    }
}

/// The statistics after counting processed files one after another, each
/// with or without an extension.
pub open spec fn processed_after(v: IndexingStatsView, ops: Seq<Option<Seq<char>>>) -> IndexingStatsView
    decreases ops.len(),
{
    if ops.len() == 0 {
        v
    } else {
        counted_processed(processed_after(v, ops.drop_last()), ops.last())
    }
}

/// However plain counts and counts under extensions interleave, the total
/// of processed files goes up by their number, each extension's count by
/// the number of counts under it, and nothing else changes; so the counts
/// under extensions add up to the number of such calls.
pub proof fn lemma_processed_counts(v: IndexingStatsView, ops: Seq<Option<Seq<char>>>, e: Seq<char>)
    requires
        v.files_processed + ops.len() <= usize::MAX,
        count_of(v.file_types_processed, e) + ops.len() <= usize::MAX,
    ensures
        processed_after(v, ops).files_processed == v.files_processed + ops.len(),
        count_of(processed_after(v, ops).file_types_processed, e)
            == count_of(v.file_types_processed, e) + ops.filter(|o: Option<Seq<char>>| o == Some(e)).len(),
        processed_after(v, ops).files_skipped == v.files_skipped,
        processed_after(v, ops).files_errored == v.files_errored,
        processed_after(v, ops).file_types_skipped == v.file_types_skipped,
        processed_after(v, ops).file_types_errored == v.file_types_errored,
    decreases ops.len(),
{
    reveal(Seq::filter);
    if ops.len() > 0 {
        let init = ops.drop_last();
        lemma_processed_counts(v, init, e);
        assert(init.filter(|o: Option<Seq<char>>| o == Some(e)).len() <= init.len()) by {
            lemma_filter_len_le(init, e);
        }
    }
}

/// Counting what a filter keeps never exceeds the length.
proof fn lemma_filter_len_le(ops: Seq<Option<Seq<char>>>, e: Seq<char>)
    ensures
        ops.filter(|o: Option<Seq<char>>| o == Some(e)).len() <= ops.len(),
    decreases ops.len(),
{
    reveal(Seq::filter);
    if ops.len() > 0 {
        lemma_filter_len_le(ops.drop_last(), e);
    }
}

/// The extensions named by the counts under an extension, in order.
pub open spec fn named_extensions(ops: Seq<Option<Seq<char>>>) -> Seq<Seq<char>>
    decreases ops.len(),
{
    if ops.len() == 0 {
        Seq::empty()
    } else {
        let init = named_extensions(ops.drop_last());
        match ops.last() {
            Some(e) => init.push(e),
            None => init,
        }
    }
}

/// From fresh statistics, however plain counts and counts under an
/// extension interleave: the total of processed files is the number of all
/// counts, and the table by extension is the tally of the extensions named,
/// so its counts add up to the number of counts under an extension.
pub proof fn lemma_processed_tally(ops: Seq<Option<Seq<char>>>)
    requires
        ops.len() <= usize::MAX,
    ensures
        processed_after(IndexingStats::new_view(), ops).files_processed == ops.len(),
        named_extensions(ops).len() <= ops.len(),
        named_extensions(ops).to_multiset().len() == named_extensions(ops).len(),
        forall|e: Seq<char>|
            count_of(#[trigger] processed_after(IndexingStats::new_view(), ops).file_types_processed, e)
                == named_extensions(ops).to_multiset().count(e),
    decreases ops.len(),
{
    broadcast use vstd::seq_lib::group_to_multiset_ensures;
    broadcast use vstd::multiset::group_multiset_axioms;
    let v = IndexingStats::new_view();
    if ops.len() == 0 {
        assert forall|e: Seq<char>| count_of(#[trigger] processed_after(v, ops).file_types_processed, e)
            == named_extensions(ops).to_multiset().count(e) by {
            assert(named_extensions(ops) =~= Seq::<Seq<char>>::empty());
        }
    } else {
        let init = ops.drop_last();
        lemma_processed_tally(init);
        let v0 = processed_after(v, init);
        let names0 = named_extensions(init);
        match ops.last() {
            Some(e) => {
                let m0 = names0.to_multiset();
                assert(m0.count(e) <= m0.len());
                assert(count_of(v0.file_types_processed, e) == m0.count(e));
                assert(names0.push(e).to_multiset() =~= m0.insert(e));
                assert forall|q: Seq<char>| count_of(#[trigger] processed_after(v, ops).file_types_processed, q)
                    == named_extensions(ops).to_multiset().count(q) by {
                    lemma_count_after_increment(v0.file_types_processed, e, q);
                    assert(count_of(v0.file_types_processed, q) == m0.count(q));
                }
            },
            None => {
                assert forall|q: Seq<char>| count_of(#[trigger] processed_after(v, ops).file_types_processed, q)
                    == named_extensions(ops).to_multiset().count(q) by {
                    assert(count_of(v0.file_types_processed, q) == names0.to_multiset().count(q));
                }
            },
        }
    }
}

/// The references found after adding counts one after another.
pub open spec fn references_after(start: usize, counts: Seq<usize>) -> usize
    decreases counts.len(),
{
    if counts.len() == 0 {
        start
    } else {
        wrapped_add(references_after(start, counts.drop_last()), counts.last())
    }
}

/// The sum of counts.
pub open spec fn sum_of(counts: Seq<usize>) -> int
    decreases counts.len(),
{
    if counts.len() == 0 { 0 } else { sum_of(counts.drop_last()) + counts.last() }
}

/// Adding counts one after another, with no overflow, gives the start plus
/// their sum, whatever the order of the counts.
pub proof fn lemma_references_sum(start: usize, counts: Seq<usize>)
    requires
        start + sum_of(counts) <= usize::MAX,
    ensures
        references_after(start, counts) == start + sum_of(counts),
    decreases counts.len(),
{
    if counts.len() > 0 {
        lemma_sum_nonneg(counts.drop_last());
        lemma_references_sum(start, counts.drop_last());
    }
}

/// The sum with the count at `j` left out, plus that count, is the sum.
proof fn lemma_sum_remove(s: Seq<usize>, j: int)
    requires
        0 <= j < s.len(),
    ensures
        sum_of(s) == sum_of(s.remove(j)) + s[j],
    decreases s.len(),
{
    if j == s.len() - 1 {
        assert(s.remove(j) =~= s.drop_last());
    } else {
        lemma_sum_remove(s.drop_last(), j);
        assert(s.remove(j).drop_last() =~= s.drop_last().remove(j));
    }
}

/// Counts that are the same multiset have the same sum.
proof fn lemma_sum_by_multiset(a: Seq<usize>, b: Seq<usize>)
    requires
        a.to_multiset() == b.to_multiset(),
    ensures
        sum_of(a) == sum_of(b),
    decreases a.len(),
{
    broadcast use vstd::seq_lib::group_to_multiset_ensures;
    broadcast use vstd::multiset::group_multiset_axioms;
    if a.len() == 0 {
        assert(b.len() == b.to_multiset().len());
    } else {
        let x = a.last();
        let init = a.drop_last();
        assert(init.push(x) =~= a);
        assert(a.to_multiset() =~= init.to_multiset().insert(x));
        assert(a.to_multiset().count(x) > 0);
        assert(b.contains(x));
        let j = choose|j: int| 0 <= j < b.len() && b[j] == x;
        assert(b.remove(j).to_multiset() =~= b.to_multiset().remove(x));
        assert(init.to_multiset() =~= b.remove(j).to_multiset());
        lemma_sum_by_multiset(init, b.remove(j));
        lemma_sum_remove(b, j);
    }
}

/// The references found do not depend on the order in which the counts
/// are added: the same counts in any order, with no overflow, give the
/// same total, the start plus their sum.
pub proof fn lemma_references_order_free(start: usize, counts: Seq<usize>, reordered: Seq<usize>)
    requires
        counts.to_multiset() == reordered.to_multiset(),
        start + sum_of(counts) <= usize::MAX,
    ensures
        references_after(start, counts) == start + sum_of(counts),
        references_after(start, reordered) == references_after(start, counts),
{
    lemma_sum_by_multiset(counts, reordered);
    lemma_references_sum(start, counts);
    lemma_references_sum(start, reordered);
}

proof fn lemma_sum_nonneg(counts: Seq<usize>)
    ensures
        sum_of(counts) >= 0,
    decreases counts.len(),
{
    if counts.len() > 0 {
        lemma_sum_nonneg(counts.drop_last());
    }
}

/// The extension that statistics record for `file_path`: its extension, or
/// `unknown` when it has none.
pub open spec fn recorded_extension(file_path: Seq<char>) -> Seq<char> {
    match extension_of(file_path) {
        Some(e) => e,
        None => "unknown"@,
    }
}

/// The report line for one extension.
pub open spec fn file_type_line(t: Seq<char>, p: nat, s: nat, e: nat) -> Seq<char> {
    "  • ."@ + t + ": "@ + decimal_text(p + s + e) + " total (✅ "@ + decimal_text(p)
        + " processed, ⏭️ "@ + decimal_text(s) + " skipped, ❌ "@ + decimal_text(e)
        + " errors)\n"@
}

/// The report lines for `types`, in order, each one present only when its
/// total is above zero.
pub open spec fn file_type_lines(
    types: Seq<Seq<char>>,
    processed: Map<Seq<char>, usize>,
    skipped: Map<Seq<char>, usize>,
    errored: Map<Seq<char>, usize>,
) -> Seq<char>
    decreases types.len(),
{
    if types.len() == 0 {
        Seq::empty()
    } else {
        let t = types.last();
        let p = count_of(processed, t);
        let s = count_of(skipped, t);
        let e = count_of(errored, t);
        file_type_lines(types.drop_last(), processed, skipped, errored) + if p + s + e > 0 {
            file_type_line(t, p, s, e)
        } else {
            Seq::empty()
        }
    }
}

fn push_file_type_line(out: &mut String, t: &str, p: usize, s: usize, e: usize)
    requires
        p + s + e <= usize::MAX,
    ensures
        final(out)@ == old(out)@ + file_type_line(t@, p as nat, s as nat, e as nat),
{
    out.append("  • .");
    out.append(t);
    out.append(": ");
    push_u64(out, (p + s + e) as u64);
    out.append(" total (✅ ");
    push_u64(out, p as u64);
    out.append(" processed, ⏭️ ");
    push_u64(out, s as u64);
    out.append(" skipped, ❌ ");
    push_u64(out, e as u64);
    out.append(" errors)\n");
    assert(out@ =~= old(out)@ + file_type_line(t@, p as nat, s as nat, e as nat));
}

impl IndexingStats {
    /// The per-extension tables are well formed.
    pub closed spec fn wf(&self) -> bool {
        &&& self.file_types_processed.wf()
        &&& self.file_types_skipped.wf()
        &&& self.file_types_errored.wf()
    }

    /// The statistics of nothing counted yet.
    pub open spec fn new_view() -> IndexingStatsView {
        IndexingStatsView {
            files_discovered: 0,
            files_processed: 0,
            files_skipped: 0,
            files_errored: 0,
            repositories_processed: 0,
            repositories_errored: 0,
            definitions_found: 0,
            references_found: 0,
            file_types_processed: Map::empty(),
            file_types_skipped: Map::empty(),
            file_types_errored: Map::empty(),
        }
    }

    pub fn new() -> (s: Self)
        ensures
            s.wf(),
            s@ == Self::new_view(),
            s@ == (IndexingStatsView {
                files_discovered: 0,
                files_processed: 0,
                files_skipped: 0,
                files_errored: 0,
                repositories_processed: 0,
                repositories_errored: 0,
                definitions_found: 0,
                references_found: 0,
                file_types_processed: Map::empty(),
                file_types_skipped: Map::empty(),
                file_types_errored: Map::empty(),
            }),
    {
        IndexingStats {
            files_discovered: 0,
            files_processed: 0,
            files_skipped: 0,
            files_errored: 0,
            repositories_processed: 0,
            repositories_errored: 0,
            definitions_found: 0,
            references_found: 0,
            file_types_processed: CountTable::new(),
            file_types_skipped: CountTable::new(),
            file_types_errored: CountTable::new(),
        }
    }

    // File statistics
    pub fn increment_files_discovered(&mut self)
        requires
            old(self).wf(),
        ensures
            final(self).wf(),
            final(self)@ == (IndexingStatsView {
                files_discovered: wrapped_add(old(self)@.files_discovered, 1),
                ..old(self)@
            }),
    {
        self.files_discovered = self.files_discovered.wrapping_add(1);
    }

    pub fn increment_files_processed(&mut self)
        requires
            old(self).wf(),
        ensures
            final(self).wf(),
            final(self)@ == counted_processed(old(self)@, None),
    {
        self.files_processed = self.files_processed.wrapping_add(1);
    }

    pub fn increment_files_skipped(&mut self)
        requires
            old(self).wf(),
        ensures
            final(self).wf(),
            final(self)@ == counted_skipped(old(self)@, None),
    {
        self.files_skipped = self.files_skipped.wrapping_add(1);
    }

    pub fn increment_files_errored(&mut self)
        requires
            old(self).wf(),
        ensures
            final(self).wf(),
            final(self)@ == counted_errored(old(self)@, None),
    {
        self.files_errored = self.files_errored.wrapping_add(1);
    }

    // File type statistics

    /// Counts a processed file under its extension. The total wraps as an
    /// atomic counter does; the count of the extension is a plain sum,
    /// which must not overflow.
    pub fn increment_file_type_processed(&mut self, file_extension: &str)
        requires
            old(self).wf(),
            count_of(old(self)@.file_types_processed, file_extension@) < usize::MAX,
        ensures
            final(self).wf(),
            final(self)@ == counted_processed(old(self)@, Some(file_extension@)),
    {
        self.increment_files_processed();
        self.file_types_processed.increment(file_extension);
    }

    pub fn increment_file_type_skipped(&mut self, file_extension: &str)
        requires
            old(self).wf(),
            count_of(old(self)@.file_types_skipped, file_extension@) < usize::MAX,
        ensures
            final(self).wf(),
            final(self)@ == counted_skipped(old(self)@, Some(file_extension@)),
    {
        self.increment_files_skipped();
        self.file_types_skipped.increment(file_extension);
    }

    pub fn increment_file_type_errored(&mut self, file_extension: &str)
        requires
            old(self).wf(),
            count_of(old(self)@.file_types_errored, file_extension@) < usize::MAX,
        ensures
            final(self).wf(),
            final(self)@ == counted_errored(old(self)@, Some(file_extension@)),
    {
        self.increment_files_errored();
        self.file_types_errored.increment(file_extension);
    }

    // Repository statistics
    pub fn increment_repositories_processed(&mut self)
        requires
            old(self).wf(),
        ensures
            final(self).wf(),
            final(self)@ == (IndexingStatsView {
                repositories_processed: wrapped_add(old(self)@.repositories_processed, 1),
                ..old(self)@
            }),
    {
        self.repositories_processed = self.repositories_processed.wrapping_add(1);
    }

    pub fn increment_repository_errors(&mut self)
        requires
            old(self).wf(),
        ensures
            final(self).wf(),
            final(self)@ == (IndexingStatsView {
                repositories_errored: wrapped_add(old(self)@.repositories_errored, 1),
                ..old(self)@
            }),
    {
        self.repositories_errored = self.repositories_errored.wrapping_add(1);
    }

    // Code entity statistics
    pub fn add_definitions(&mut self, count: usize)
        requires
            old(self).wf(),
        ensures
            final(self).wf(),
            final(self)@ == (IndexingStatsView {
                definitions_found: wrapped_add(old(self)@.definitions_found, count),
                ..old(self)@
            }),
    {
        self.definitions_found = self.definitions_found.wrapping_add(count);
    }

    pub fn add_references(&mut self, count: usize)
        requires
            old(self).wf(),
        ensures
            final(self).wf(),
            final(self)@ == (IndexingStatsView {
                references_found: wrapped_add(old(self)@.references_found, count),
                ..old(self)@
            }),
    {
        self.references_found = self.references_found.wrapping_add(count);
    }

    // Getters
    pub fn files_discovered(&self) -> (n: usize)
        ensures
            n == self@.files_discovered,
    {
        self.files_discovered
    }

    pub fn files_processed(&self) -> (n: usize)
        ensures
            n == self@.files_processed,
    {
        self.files_processed
    }

    pub fn files_skipped(&self) -> (n: usize)
        ensures
            n == self@.files_skipped,
    {
        self.files_skipped
    }

    pub fn files_errored(&self) -> (n: usize)
        ensures
            n == self@.files_errored,
    {
        self.files_errored
    }

    pub fn repositories_processed(&self) -> (n: usize)
        ensures
            n == self@.repositories_processed,
    {
        self.repositories_processed
    }

    pub fn repositories_errored(&self) -> (n: usize)
        ensures
            n == self@.repositories_errored,
    {
        self.repositories_errored
    }

    pub fn definitions_found(&self) -> (n: usize)
        ensures
            n == self@.definitions_found,
    {
        self.definitions_found
    }

    pub fn references_found(&self) -> (n: usize)
        ensures
            n == self@.references_found,
    {
        self.references_found
    }

    // File type getters
    pub fn file_types_processed(&self) -> (t: CountTable)
        requires
            self.wf(),
        ensures
            t.wf(),
            t@ == self@.file_types_processed,
    {
        self.file_types_processed.duplicate()
    }

    pub fn file_types_skipped(&self) -> (t: CountTable)
        requires
            self.wf(),
        ensures
            t.wf(),
            t@ == self@.file_types_skipped,
    {
        self.file_types_skipped.duplicate()
    }

    pub fn file_types_errored(&self) -> (t: CountTable)
        requires
            self.wf(),
        ensures
            t.wf(),
            t@ == self@.file_types_errored,
    {
        self.file_types_errored.duplicate()
    }

    // Progress calculation
    pub fn total_files_processed(&self) -> (n: usize)
        requires
            self@.files_processed + self@.files_skipped + self@.files_errored <= usize::MAX,
        ensures
            n == self@.files_processed + self@.files_skipped + self@.files_errored,
    {
        self.files_processed + self.files_skipped + self.files_errored
    }

    // Helper to extract file extension
    pub fn extract_extension(file_path: &str) -> (e: String)
        ensures
            e@ == recorded_extension(file_path@),
    {
        match extension(file_path) {
            Some(e) => e,
            None => String::from_str("unknown"),
        }
    }

    /// Adds the keys of `table` to the sorted list `types`.
    fn add_keys(types: &mut Vec<String>, table: &CountTable)
        requires
            table.wf(),
            strictly_sorted(texts(old(types)@)),
        ensures
            strictly_sorted(texts(final(types)@)),
            texts(final(types)@).to_set() == texts(old(types)@).to_set().union(table@.dom()),
    {
        let ghost start = texts(types@).to_set();
        proof { table.lemma_keys(); }
        let mut i: usize = 0;
        while i < table.len()
            invariant
                table.wf(),
                i <= table.len_spec(),
                table.keys().len() == table.len_spec(),
                table.keys().to_set() == table@.dom(),
                strictly_sorted(texts(types@)),
                texts(types@).to_set() == start.union(table.keys().take(i as int).to_set()),
            decreases table.len_spec() - i,
        {
            let k = table.key_at(i).clone();
            insert_sorted(types, k);
            proof {
                assert(table.keys().take(i + 1) =~= table.keys().take(i as int).push(table.keys()[i as int]));
                crate::seq_util::lemma_push_to_set(table.keys().take(i as int), table.keys()[i as int]);
                assert(texts(types@).to_set() =~= start.union(table.keys().take(i + 1).to_set()));
            }
            i = i + 1;
        }
        assert(table.keys().take(i as int) =~= table.keys());
    }

    // Pretty print file type statistics
    pub fn format_file_type_stats(&self) -> (r: String)
        requires
            self.wf(),
            forall|k: Seq<char>|
                count_of(self@.file_types_processed, k) + count_of(self@.file_types_skipped, k)
                    + count_of(self@.file_types_errored, k) <= usize::MAX,
        ensures
            exists|types: Seq<Seq<char>>| {
                &&& strictly_sorted(types)
                &&& types.to_set() == self@.file_types_processed.dom().union(
                    self@.file_types_skipped.dom(),
                ).union(self@.file_types_errored.dom())
                &&& r@ == file_type_lines(
                    types,
                    self@.file_types_processed,
                    self@.file_types_skipped,
                    self@.file_types_errored,
                )
            },
    {
        let mut result = String::new();

        let processed = self.file_types_processed();
        let skipped = self.file_types_skipped();
        let errored = self.file_types_errored();

        // Collect all file types
        let mut types: Vec<String> = Vec::new();
        assert(texts(types@).to_set() =~= Set::<Seq<char>>::empty());
        Self::add_keys(&mut types, &processed);
        Self::add_keys(&mut types, &skipped);
        Self::add_keys(&mut types, &errored);
        assert(texts(types@).to_set() =~= processed@.dom().union(skipped@.dom()).union(errored@.dom()));

        let ghost ts = texts(types@);
        let mut i: usize = 0;
        while i < types.len()
            invariant
                i <= types@.len(),
                ts == texts(types@),
                processed.wf(),
                skipped.wf(),
                errored.wf(),
                processed@ == self@.file_types_processed,
                skipped@ == self@.file_types_skipped,
                errored@ == self@.file_types_errored,
                forall|k: Seq<char>|
                    count_of(self@.file_types_processed, k) + count_of(self@.file_types_skipped, k)
                        + count_of(self@.file_types_errored, k) <= usize::MAX,
                result@ == file_type_lines(ts.take(i as int), processed@, skipped@, errored@),
            decreases types@.len() - i,
        {
            let file_type = &types[i];
            let proc_count = processed.get(file_type.as_str());
            let skip_count = skipped.get(file_type.as_str());
            let err_count = errored.get(file_type.as_str());
            let total = proc_count + skip_count + err_count;
            proof {
                assert(ts.take(i + 1).drop_last() =~= ts.take(i as int));
                assert(ts.take(i + 1).last() == file_type@);
            }
            if total > 0 {
                push_file_type_line(&mut result, file_type.as_str(), proc_count, skip_count, err_count);
            } else {
                assert(result@ =~= file_type_lines(ts.take(i as int), processed@, skipped@, errored@) + Seq::<char>::empty());
            }
            i = i + 1;
        }
        assert(ts.take(i as int) =~= ts);
        result
    }
}

} // verus!
