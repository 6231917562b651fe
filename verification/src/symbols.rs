//! The ten stems, the twelve branches, and the pillar that pairs one of each.

use vstd::prelude::*;
use vstd::string::*;

verus! {

/// Number of stems in the cycle.
pub const STEM_COUNT: usize = 10;

/// Number of branches in the cycle.
pub const BRANCH_COUNT: usize = 12;

/// The stems in cyclic order, one character each.
pub open spec fn stem_symbols() -> Seq<char> {
    seq!['甲', '乙', '丙', '丁', '戊', '己', '庚', '辛', '壬', '癸']
}

/// The branches in cyclic order, one character each.
pub open spec fn branch_symbols() -> Seq<char> {
    seq!['子', '丑', '寅', '卯', '辰', '巳', '午', '未', '申', '酉', '戌', '亥']
}

/// The stem table: entry `i` is the one-character string of stem `i`.
pub fn get_stems() -> (table: Vec<&'static str>)
    ensures
        table@.len() == STEM_COUNT,
        forall|i: int| 0 <= i < STEM_COUNT ==> (#[trigger] table@[i])@ == seq![stem_symbols()[i]],
{
    proof {
        reveal_strlit("甲");
        reveal_strlit("乙");
        reveal_strlit("丙");
        reveal_strlit("丁");
        reveal_strlit("戊");
        reveal_strlit("己");
        reveal_strlit("庚");
        reveal_strlit("辛");
        reveal_strlit("壬");
        reveal_strlit("癸");
    }
    let table = vec!["甲", "乙", "丙", "丁", "戊", "己", "庚", "辛", "壬", "癸"];
    assert forall|i: int| 0 <= i < STEM_COUNT implies (#[trigger] table@[i])@ == seq![
        stem_symbols()[i],
    ] by {
        assert(table@[i]@ =~= seq![stem_symbols()[i]]);
    }
    table
}

/// The branch table: entry `i` is the one-character string of branch `i`.
pub fn get_branches() -> (table: Vec<&'static str>)
    ensures
        table@.len() == BRANCH_COUNT,
        forall|i: int|
            0 <= i < BRANCH_COUNT ==> (#[trigger] table@[i])@ == seq![branch_symbols()[i]],
{
    proof {
        reveal_strlit("子");
        reveal_strlit("丑");
        reveal_strlit("寅");
        reveal_strlit("卯");
        reveal_strlit("辰");
        reveal_strlit("巳");
        reveal_strlit("午");
        reveal_strlit("未");
        reveal_strlit("申");
        reveal_strlit("酉");
        reveal_strlit("戌");
        reveal_strlit("亥");
    }
    let table = vec!["子", "丑", "寅", "卯", "辰", "巳", "午", "未", "申", "酉", "戌", "亥"];
    assert forall|i: int| 0 <= i < BRANCH_COUNT implies (#[trigger] table@[i])@ == seq![
        branch_symbols()[i],
    ] by {
        assert(table@[i]@ =~= seq![branch_symbols()[i]]);
    }
    table
}

/// A stem paired with a branch, each held as its position in its cycle.
#[derive(Clone, Copy, Debug, PartialEq, Eq, Structural)]
pub struct Pillar {
    pub stem: usize,
    pub branch: usize,
}

impl Pillar {
    /// Both positions lie inside their cycles.
    pub open spec fn wf(self) -> bool {
        self.stem < STEM_COUNT && self.branch < BRANCH_COUNT
    }

    /// The two characters that the pillar is written with: stem, then branch.
    pub open spec fn text(self) -> Seq<char> {
        seq![stem_symbols()[self.stem as int], branch_symbols()[self.branch as int]]
    }

    /// Writes the pillar as its two-character string.
    pub fn render(&self) -> (s: String)
        requires
            self.wf(),
        ensures
            s@ == self.text(),
    {
        let stems = get_stems();
        let branches = get_branches();
        let mut s = String::from_str(stems[self.stem]);
        s.append(branches[self.branch]);
        assert(s@ =~= self.text());
        s
    }
}

} // verus!
