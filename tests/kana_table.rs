use kana_practice::kana::{category_entries, get_type_name, init_kana_map, same_text, Category, KanaTable};
use kana_practice::selection::CategorySelection;

fn only(index: usize) -> CategorySelection {
    let mut flags = [false; 10];
    flags[index] = true;
    CategorySelection { flags }
}

#[test]
fn lookup_base_readings() {
    let t = KanaTable::new();
    assert_eq!(t.lookup("あ"), Some("a"));
    assert_eq!(t.lookup("か"), Some("ka"));
    assert_eq!(t.lookup("し"), Some("shi"));
    assert_eq!(t.lookup("ち"), Some("chi"));
    assert_eq!(t.lookup("つ"), Some("tsu"));
    assert_eq!(t.lookup("ふ"), Some("fu"));
    assert_eq!(t.lookup("を"), Some("wo"));
    assert_eq!(t.lookup("ん"), Some("n"));
    assert_eq!(t.lookup("ン"), Some("n"));
}

#[test]
fn lookup_dakuten_duplicates() {
    let t = KanaTable::new();
    assert_eq!(t.lookup("じ"), Some("ji"));
    assert_eq!(t.lookup("ぢ"), Some("ji"));
    assert_eq!(t.lookup("ず"), Some("zu"));
    assert_eq!(t.lookup("づ"), Some("zu"));
    assert_eq!(t.lookup("ヂ"), Some("ji"));
    assert_eq!(t.lookup("ヅ"), Some("zu"));
}

#[test]
fn lookup_combo_small_long() {
    let t = KanaTable::new();
    assert_eq!(t.lookup("きゃ"), Some("kya"));
    assert_eq!(t.lookup("りょ"), Some("ryo"));
    assert_eq!(t.lookup("ショ"), Some("sho"));
    assert_eq!(t.lookup("ぁ"), Some("a"));
    assert_eq!(t.lookup("っ"), Some("tsu"));
    assert_eq!(t.lookup("ッ"), Some("tsu"));
    assert_eq!(t.lookup("あー"), Some("a"));
    assert_eq!(t.lookup("オー"), Some("o"));
}

#[test]
fn lookup_unknown_glyph() {
    let t = KanaTable::new();
    assert_eq!(t.lookup(""), None);
    assert_eq!(t.lookup("ka"), None);
    assert_eq!(t.lookup("き"), Some("ki"));
    assert_eq!(t.lookup("きゃー"), None);
}

#[test]
fn every_listed_glyph_has_a_reading() {
    let t = KanaTable::new();
    for i in 0..10 {
        let c = Category::from_index(i).unwrap();
        for (g, reading) in category_entries(c) {
            assert_eq!(t.lookup(g), Some(reading), "glyph {}", g);
        }
    }
}

#[test]
fn table_holds_every_entry() {
    assert_eq!(init_kana_map().len(), 186);
    assert_eq!(init_kana_map()[0], ("あ", "a"));
    assert_eq!(init_kana_map()[185], ("オー", "o"));
}

#[test]
fn category_glyph_counts() {
    let t = KanaTable::new();
    let expected = [46, 15, 21, 6, 5, 46, 15, 21, 6, 5];
    for i in 0..10 {
        assert_eq!(t.glyphs_for(&only(i)).len(), expected[i], "category {}", i);
    }
}

#[test]
fn glyphs_for_keeps_category_order() {
    let t = KanaTable::new();
    let mut flags = [false; 10];
    flags[4] = true;
    flags[8] = true;
    let g = t.glyphs_for(&CategorySelection { flags });
    assert_eq!(g, vec!["あー", "いー", "うー", "えー", "おー", "ァ", "ィ", "ゥ", "ェ", "ォ", "ッ"]);
}

#[test]
fn glyphs_for_all_and_none() {
    let t = KanaTable::new();
    assert_eq!(t.glyphs_for(&CategorySelection { flags: [true; 10] }).len(), 186);
    assert!(t.glyphs_for(&CategorySelection { flags: [false; 10] }).is_empty());
    let d = t.glyphs_for(&CategorySelection::new());
    assert_eq!(d.len(), 46);
    assert_eq!(d[5], "か");
}

#[test]
fn category_positions_round_trip() {
    for i in 0..10 {
        assert_eq!(Category::from_index(i).unwrap().index(), i);
    }
    assert_eq!(Category::from_index(10), None);
    assert_eq!(Category::from_index(0), Some(Category::HiraganaBase));
    assert_eq!(Category::from_index(9), Some(Category::KatakanaLong));
}

#[test]
fn toggle_labels() {
    let names = [
        "Hiragana", "Dakuon", "Combo", "Small", "Long", "Katakana", "Dakuon", "Combo", "Small",
        "Long",
    ];
    for i in 0..10 {
        assert_eq!(get_type_name(i), names[i]);
    }
    assert_eq!(get_type_name(10), "Error");
    assert_eq!(Category::HiraganaCombo.script_name(), "Hiragana");
    assert_eq!(Category::KatakanaCombo.script_name(), "Katakana");
    assert_eq!(Category::KatakanaSmall.display_name(), "Small");
}

#[test]
fn text_comparison() {
    assert!(same_text("か", "か"));
    assert!(!same_text("か", "が"));
    assert!(!same_text("ka", "kaa"));
    assert!(same_text("", ""));
}

#[test]
fn selection_toggle() {
    let mut s = CategorySelection::new();
    assert!(s.is_enabled(0));
    assert!(!s.is_enabled(3));
    s.toggle(3);
    s.toggle(0);
    assert!(s.is_enabled(3));
    assert!(!s.is_enabled(0));
    assert_eq!(s.flags, [false, false, false, true, false, false, false, false, false, false]);
}
