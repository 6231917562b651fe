use four_pillars::symbols::{get_branches, get_stems, Pillar, BRANCH_COUNT, STEM_COUNT};

#[test]
fn stems_are_the_ten_in_order() {
    assert_eq!(
        get_stems(),
        vec!["甲", "乙", "丙", "丁", "戊", "己", "庚", "辛", "壬", "癸"]
    );
    assert_eq!(get_stems().len(), STEM_COUNT);
}

#[test]
fn branches_are_the_twelve_in_order() {
    assert_eq!(
        get_branches(),
        vec!["子", "丑", "寅", "卯", "辰", "巳", "午", "未", "申", "酉", "戌", "亥"]
    );
    assert_eq!(get_branches().len(), BRANCH_COUNT);
}

#[test]
fn every_table_entry_is_one_character() {
    for s in get_stems() {
        assert_eq!(s.chars().count(), 1);
    }
    for b in get_branches() {
        assert_eq!(b.chars().count(), 1);
    }
}

#[test]
fn render_writes_stem_then_branch() {
    assert_eq!(Pillar { stem: 0, branch: 0 }.render(), "甲子");
    assert_eq!(Pillar { stem: 9, branch: 11 }.render(), "癸亥");
    assert_eq!(Pillar { stem: 5, branch: 3 }.render(), "己卯");
    assert_eq!(Pillar { stem: 3, branch: 5 }.render(), "丁巳");
}

#[test]
fn render_covers_every_pair() {
    let stems = get_stems();
    let branches = get_branches();
    for stem in 0..STEM_COUNT {
        for branch in 0..BRANCH_COUNT {
            let text = Pillar { stem, branch }.render();
            assert_eq!(text, format!("{}{}", stems[stem], branches[branch]));
            assert_eq!(text.chars().count(), 2);
        }
    }
}
