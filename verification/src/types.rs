//! Plain values that pass between the stages of the pipeline.

use vstd::prelude::*;

verus! {

/// The result of one scan: the spreadsheet files found, in the order in
/// which they were met, and the sum of their sizes in bytes.
#[derive(Clone, Debug, PartialEq, Eq)]
pub struct ScanResult {
    pub file_count: usize,
    pub total_size: u64,
    pub files: Vec<String>,
}

/// One rule of a mapping table: a header that reads `original` is rewritten
/// to `mapped`.
#[derive(Clone, Debug, PartialEq, Eq)]
pub struct ColumnMapping {
    pub original: String,
    pub mapped: String,
}

/// The texts that a list of strings holds.
pub open spec fn texts(strings: Seq<String>) -> Seq<Seq<char>> {
    strings.map_values(|s: String| s@)
}

/// The mapping table that a list of rules amounts to, as an association
/// from original to mapped header text. Where two rules have the same
/// original, the later one wins.
pub open spec fn mapping_table(rules: Seq<ColumnMapping>) -> Map<Seq<char>, Seq<char>>
    decreases rules.len(),
{
    if rules.len() == 0 {
        Map::empty()
    } else {
        mapping_table(rules.drop_last()).insert(rules.last().original@, rules.last().mapped@)
    }
}

/// A header as the table rewrites it: the text mapped to it where the table
/// has it as a key, and the header itself otherwise.
pub open spec fn rewritten(table: Map<Seq<char>, Seq<char>>, header: Seq<char>) -> Seq<char> {
    if table.dom().contains(header) {
        table[header]
    } else {
        header
    }
}

/// The keys of a mapping table are the originals of its rules.
pub proof fn lemma_mapping_table_keys(rules: Seq<ColumnMapping>, header: Seq<char>)
    ensures
        mapping_table(rules).dom().contains(header) <==> exists|i: int|
            0 <= i < rules.len() && (#[trigger] rules[i]).original@ == header,
    decreases rules.len(),
{
    if rules.len() > 0 {
        let front = rules.drop_last();
        lemma_mapping_table_keys(front, header);
        if mapping_table(rules).dom().contains(header) {
            if rules.last().original@ == header {
                assert(rules[rules.len() - 1].original@ == header);
            } else {
                let i = choose|i: int| 0 <= i < front.len() && (#[trigger] front[i]).original@ == header;
                assert(rules[i].original@ == header);
            }
        }
        if exists|i: int| 0 <= i < rules.len() && (#[trigger] rules[i]).original@ == header {
            let i = choose|i: int| 0 <= i < rules.len() && (#[trigger] rules[i]).original@ == header;
            if i < front.len() {
                assert(front[i].original@ == header);
            }
        }
    }
}

/// Where several rules have the same original, the table holds what the
/// last of them maps it to.
pub proof fn lemma_mapping_table_last_wins(rules: Seq<ColumnMapping>, i: int)
    requires
        0 <= i < rules.len(),
        forall|j: int| i < j < rules.len() ==> (#[trigger] rules[j]).original@ != rules[i].original@,
    ensures
        mapping_table(rules).dom().contains(rules[i].original@),
        mapping_table(rules)[rules[i].original@] == rules[i].mapped@,
    decreases rules.len(),
{
    if i < rules.len() - 1 {
        let front = rules.drop_last();
        assert(rules[rules.len() - 1].original@ != rules[i].original@);
        assert forall|j: int| i < j < front.len() implies (#[trigger] front[j]).original@
            != front[i].original@ by {
            assert(front[j] == rules[j]);
        }
        lemma_mapping_table_last_wins(front, i);
    }
}

} // verus!
