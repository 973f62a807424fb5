use vstd::prelude::*;
use crate::selection::CategorySelection;

verus! {

/// The number of selectable kana categories.
pub const CATEGORY_COUNT: usize = 10;

/// One of the ten groups of kana that a quiz can draw from.
#[derive(Clone, Copy, PartialEq, Eq, Structural, Debug)]
pub enum Category {
    HiraganaBase,
    HiraganaDakuten,
    HiraganaCombo,
    HiraganaSmall,
    HiraganaLong,
    KatakanaBase,
    KatakanaDakuten,
    KatakanaCombo,
    KatakanaSmall,
    KatakanaLong,
}

impl Category {
    /// Position of the category in the fixed order of the selection.
    pub open spec fn position(self) -> int {
        match self {
            Category::HiraganaBase => 0,
            Category::HiraganaDakuten => 1,
            Category::HiraganaCombo => 2,
            Category::HiraganaSmall => 3,
            Category::HiraganaLong => 4,
            Category::KatakanaBase => 5,
            Category::KatakanaDakuten => 6,
            Category::KatakanaCombo => 7,
            Category::KatakanaSmall => 8,
            Category::KatakanaLong => 9,
        }
    }

    /// The category at position `i` (positions past the last one give the last category).
    pub open spec fn at(i: int) -> Category {
        if i == 0 {
            Category::HiraganaBase
        } else if i == 1 {
            Category::HiraganaDakuten
        } else if i == 2 {
            Category::HiraganaCombo
        } else if i == 3 {
            Category::HiraganaSmall
        } else if i == 4 {
            Category::HiraganaLong
        } else if i == 5 {
            Category::KatakanaBase
        } else if i == 6 {
            Category::KatakanaDakuten
        } else if i == 7 {
            Category::KatakanaCombo
        } else if i == 8 {
            Category::KatakanaSmall
        } else {
            Category::KatakanaLong
        }
    }

    pub proof fn lemma_at_position(self)
        ensures
            0 <= self.position() < CATEGORY_COUNT,
            Category::at(self.position()) == self,
    {
    }

    pub fn index(self) -> (r: usize)
        ensures
            r == self.position(),
    {
        match self {
            Category::HiraganaBase => 0,
            Category::HiraganaDakuten => 1,
            Category::HiraganaCombo => 2,
            Category::HiraganaSmall => 3,
            Category::HiraganaLong => 4,
            Category::KatakanaBase => 5,
            Category::KatakanaDakuten => 6,
            Category::KatakanaCombo => 7,
            Category::KatakanaSmall => 8,
            Category::KatakanaLong => 9,
        }
    }

    pub fn from_index(i: usize) -> (r: Option<Category>)
        ensures
            i < CATEGORY_COUNT ==> r == Some(Category::at(i as int)) && Category::at(
                i as int,
            ).position() == i,
            i >= CATEGORY_COUNT ==> r is None,
    {
        if i == 0 {
            Some(Category::HiraganaBase)
        } else if i == 1 {
            Some(Category::HiraganaDakuten)
        } else if i == 2 {
            Some(Category::HiraganaCombo)
        } else if i == 3 {
            Some(Category::HiraganaSmall)
        } else if i == 4 {
            Some(Category::HiraganaLong)
        } else if i == 5 {
            Some(Category::KatakanaBase)
        } else if i == 6 {
            Some(Category::KatakanaDakuten)
        } else if i == 7 {
            Some(Category::KatakanaCombo)
        } else if i == 8 {
            Some(Category::KatakanaSmall)
        } else if i == 9 {
            Some(Category::KatakanaLong)
        } else {
            None
        }
    }

    pub open spec fn is_katakana(self) -> bool {
        self.position() >= 5
    }

    /// The short label shown on the category's toggle.
    pub open spec fn label(self) -> &'static str {
        match self {
            Category::HiraganaBase => "Hiragana",
            Category::KatakanaBase => "Katakana",
            Category::HiraganaDakuten | Category::KatakanaDakuten => "Dakuon",
            Category::HiraganaCombo | Category::KatakanaCombo => "Combo",
            Category::HiraganaSmall | Category::KatakanaSmall => "Small",
            Category::HiraganaLong | Category::KatakanaLong => "Long",
        }
    }

    pub fn display_name(self) -> (r: &'static str)
        ensures
            r == self.label(),
    {
        match self {
            Category::HiraganaBase => "Hiragana",
            Category::KatakanaBase => "Katakana",
            Category::HiraganaDakuten | Category::KatakanaDakuten => "Dakuon",
            Category::HiraganaCombo | Category::KatakanaCombo => "Combo",
            Category::HiraganaSmall | Category::KatakanaSmall => "Small",
            Category::HiraganaLong | Category::KatakanaLong => "Long",
        }
    }

    /// The name of the script the category belongs to, used as a prefix in tooltips.
    pub fn script_name(self) -> (r: &'static str)
        ensures
            r == (if self.is_katakana() {
                "Katakana"
            } else {
                "Hiragana"
            }),
    {
        if self.index() >= 5 {
            "Katakana"
        } else {
            "Hiragana"
        }
    }
}

/// The label for the toggle at position `id`, or "Error" for a position past the last category.
pub open spec fn toggle_label(id: int) -> &'static str {
    if 0 <= id < CATEGORY_COUNT {
        Category::at(id).label()
    } else {
        "Error"
    }
}

pub fn get_type_name(id: usize) -> (r: String)
    ensures
        r@ == toggle_label(id as int)@,
{
    match Category::from_index(id) {
        Some(c) => String::from_str(c.display_name()),
        None => String::from_str("Error"),
    }
}

/// The (glyph, reading) pairs of a category, in their fixed order.
pub open spec fn entries(c: Category) -> Seq<(&'static str, &'static str)> {
    match c {
        Category::HiraganaBase => seq![
            ("あ", "a"), ("い", "i"), ("う", "u"), ("え", "e"), ("お", "o"), ("か", "ka"),
            ("き", "ki"), ("く", "ku"), ("け", "ke"), ("こ", "ko"), ("さ", "sa"), ("し", "shi"),
            ("す", "su"), ("せ", "se"), ("そ", "so"), ("た", "ta"), ("ち", "chi"), ("つ", "tsu"),
            ("て", "te"), ("と", "to"), ("な", "na"), ("に", "ni"), ("ぬ", "nu"), ("ね", "ne"),
            ("の", "no"), ("は", "ha"), ("ひ", "hi"), ("ふ", "fu"), ("へ", "he"), ("ほ", "ho"),
            ("ま", "ma"), ("み", "mi"), ("む", "mu"), ("め", "me"), ("も", "mo"), ("や", "ya"),
            ("ゆ", "yu"), ("よ", "yo"), ("ら", "ra"), ("り", "ri"), ("る", "ru"), ("れ", "re"),
            ("ろ", "ro"), ("わ", "wa"), ("を", "wo"), ("ん", "n"),
        ],
        Category::HiraganaDakuten => seq![
            ("が", "ga"), ("ぎ", "gi"), ("ぐ", "gu"), ("げ", "ge"), ("ご", "go"), ("ざ", "za"),
            ("じ", "ji"), ("ず", "zu"), ("ぜ", "ze"), ("ぞ", "zo"), ("だ", "da"), ("ぢ", "ji"),
            ("づ", "zu"), ("で", "de"), ("ど", "do"),
        ],
        Category::HiraganaCombo => seq![
            ("きゃ", "kya"), ("きゅ", "kyu"), ("きょ", "kyo"), ("しゃ", "sha"), ("しゅ", "shu"),
            ("しょ", "sho"), ("ちゃ", "cha"), ("ちゅ", "chu"), ("ちょ", "cho"), ("にゃ", "nya"),
            ("にゅ", "nyu"), ("にょ", "nyo"), ("ひゃ", "hya"), ("ひゅ", "hyu"), ("ひょ", "hyo"),
            ("みゃ", "mya"), ("みゅ", "myu"), ("みょ", "myo"), ("りゃ", "rya"), ("りゅ", "ryu"),
            ("りょ", "ryo"),
        ],
        Category::HiraganaSmall => seq![
            ("ぁ", "a"), ("ぃ", "i"), ("ぅ", "u"), ("ぇ", "e"), ("ぉ", "o"), ("っ", "tsu"),
        ],
        Category::HiraganaLong => seq![
            ("あー", "a"), ("いー", "i"), ("うー", "u"), ("えー", "e"), ("おー", "o"),
        ],
        Category::KatakanaBase => seq![
            ("ア", "a"), ("イ", "i"), ("ウ", "u"), ("エ", "e"), ("オ", "o"), ("カ", "ka"),
            ("キ", "ki"), ("ク", "ku"), ("ケ", "ke"), ("コ", "ko"), ("サ", "sa"), ("シ", "shi"),
            ("ス", "su"), ("セ", "se"), ("ソ", "so"), ("タ", "ta"), ("チ", "chi"), ("ツ", "tsu"),
            ("テ", "te"), ("ト", "to"), ("ナ", "na"), ("ニ", "ni"), ("ヌ", "nu"), ("ネ", "ne"),
            ("ノ", "no"), ("ハ", "ha"), ("ヒ", "hi"), ("フ", "fu"), ("ヘ", "he"), ("ホ", "ho"),
            ("マ", "ma"), ("ミ", "mi"), ("ム", "mu"), ("メ", "me"), ("モ", "mo"), ("ヤ", "ya"),
            ("ユ", "yu"), ("ヨ", "yo"), ("ラ", "ra"), ("リ", "ri"), ("ル", "ru"), ("レ", "re"),
            ("ロ", "ro"), ("ワ", "wa"), ("ヲ", "wo"), ("ン", "n"),
        ],
        Category::KatakanaDakuten => seq![
            ("ガ", "ga"), ("ギ", "gi"), ("グ", "gu"), ("ゲ", "ge"), ("ゴ", "go"), ("ザ", "za"),
            ("ジ", "ji"), ("ズ", "zu"), ("ゼ", "ze"), ("ゾ", "zo"), ("ダ", "da"), ("ヂ", "ji"),
            ("ヅ", "zu"), ("デ", "de"), ("ド", "do"),
        ],
        Category::KatakanaCombo => seq![
            ("キャ", "kya"), ("キュ", "kyu"), ("キョ", "kyo"), ("シャ", "sha"), ("シュ", "shu"),
            ("ショ", "sho"), ("チャ", "cha"), ("チュ", "chu"), ("チョ", "cho"), ("ニャ", "nya"),
            ("ニュ", "nyu"), ("ニョ", "nyo"), ("ヒャ", "hya"), ("ヒュ", "hyu"), ("ヒョ", "hyo"),
            ("ミャ", "mya"), ("ミュ", "myu"), ("ミョ", "myo"), ("リャ", "rya"), ("リュ", "ryu"),
            ("リョ", "ryo"),
        ],
        Category::KatakanaSmall => seq![
            ("ァ", "a"), ("ィ", "i"), ("ゥ", "u"), ("ェ", "e"), ("ォ", "o"), ("ッ", "tsu"),
        ],
        Category::KatakanaLong => seq![
            ("アー", "a"), ("イー", "i"), ("ウー", "u"), ("エー", "e"), ("オー", "o"),
        ],    }
}

pub fn category_entries(c: Category) -> (r: Vec<(&'static str, &'static str)>)
    ensures
        r@ == entries(c),
{
    match c {
        Category::HiraganaBase => vec![
            ("あ", "a"), ("い", "i"), ("う", "u"), ("え", "e"), ("お", "o"), ("か", "ka"),
            ("き", "ki"), ("く", "ku"), ("け", "ke"), ("こ", "ko"), ("さ", "sa"), ("し", "shi"),
            ("す", "su"), ("せ", "se"), ("そ", "so"), ("た", "ta"), ("ち", "chi"), ("つ", "tsu"),
            ("て", "te"), ("と", "to"), ("な", "na"), ("に", "ni"), ("ぬ", "nu"), ("ね", "ne"),
            ("の", "no"), ("は", "ha"), ("ひ", "hi"), ("ふ", "fu"), ("へ", "he"), ("ほ", "ho"),
            ("ま", "ma"), ("み", "mi"), ("む", "mu"), ("め", "me"), ("も", "mo"), ("や", "ya"),
            ("ゆ", "yu"), ("よ", "yo"), ("ら", "ra"), ("り", "ri"), ("る", "ru"), ("れ", "re"),
            ("ろ", "ro"), ("わ", "wa"), ("を", "wo"), ("ん", "n"),
        ],
        Category::HiraganaDakuten => vec![
            ("が", "ga"), ("ぎ", "gi"), ("ぐ", "gu"), ("げ", "ge"), ("ご", "go"), ("ざ", "za"),
            ("じ", "ji"), ("ず", "zu"), ("ぜ", "ze"), ("ぞ", "zo"), ("だ", "da"), ("ぢ", "ji"),
            ("づ", "zu"), ("で", "de"), ("ど", "do"),
        ],
        Category::HiraganaCombo => vec![
            ("きゃ", "kya"), ("きゅ", "kyu"), ("きょ", "kyo"), ("しゃ", "sha"), ("しゅ", "shu"),
            ("しょ", "sho"), ("ちゃ", "cha"), ("ちゅ", "chu"), ("ちょ", "cho"), ("にゃ", "nya"),
            ("にゅ", "nyu"), ("にょ", "nyo"), ("ひゃ", "hya"), ("ひゅ", "hyu"), ("ひょ", "hyo"),
            ("みゃ", "mya"), ("みゅ", "myu"), ("みょ", "myo"), ("りゃ", "rya"), ("りゅ", "ryu"),
            ("りょ", "ryo"),
        ],
        Category::HiraganaSmall => vec![
            ("ぁ", "a"), ("ぃ", "i"), ("ぅ", "u"), ("ぇ", "e"), ("ぉ", "o"), ("っ", "tsu"),
        ],
        Category::HiraganaLong => vec![
            ("あー", "a"), ("いー", "i"), ("うー", "u"), ("えー", "e"), ("おー", "o"),
        ],
        Category::KatakanaBase => vec![
            ("ア", "a"), ("イ", "i"), ("ウ", "u"), ("エ", "e"), ("オ", "o"), ("カ", "ka"),
            ("キ", "ki"), ("ク", "ku"), ("ケ", "ke"), ("コ", "ko"), ("サ", "sa"), ("シ", "shi"),
            ("ス", "su"), ("セ", "se"), ("ソ", "so"), ("タ", "ta"), ("チ", "chi"), ("ツ", "tsu"),
            ("テ", "te"), ("ト", "to"), ("ナ", "na"), ("ニ", "ni"), ("ヌ", "nu"), ("ネ", "ne"),
            ("ノ", "no"), ("ハ", "ha"), ("ヒ", "hi"), ("フ", "fu"), ("ヘ", "he"), ("ホ", "ho"),
            ("マ", "ma"), ("ミ", "mi"), ("ム", "mu"), ("メ", "me"), ("モ", "mo"), ("ヤ", "ya"),
            ("ユ", "yu"), ("ヨ", "yo"), ("ラ", "ra"), ("リ", "ri"), ("ル", "ru"), ("レ", "re"),
            ("ロ", "ro"), ("ワ", "wa"), ("ヲ", "wo"), ("ン", "n"),
        ],
        Category::KatakanaDakuten => vec![
            ("ガ", "ga"), ("ギ", "gi"), ("グ", "gu"), ("ゲ", "ge"), ("ゴ", "go"), ("ザ", "za"),
            ("ジ", "ji"), ("ズ", "zu"), ("ゼ", "ze"), ("ゾ", "zo"), ("ダ", "da"), ("ヂ", "ji"),
            ("ヅ", "zu"), ("デ", "de"), ("ド", "do"),
        ],
        Category::KatakanaCombo => vec![
            ("キャ", "kya"), ("キュ", "kyu"), ("キョ", "kyo"), ("シャ", "sha"), ("シュ", "shu"),
            ("ショ", "sho"), ("チャ", "cha"), ("チュ", "chu"), ("チョ", "cho"), ("ニャ", "nya"),
            ("ニュ", "nyu"), ("ニョ", "nyo"), ("ヒャ", "hya"), ("ヒュ", "hyu"), ("ヒョ", "hyo"),
            ("ミャ", "mya"), ("ミュ", "myu"), ("ミョ", "myo"), ("リャ", "rya"), ("リュ", "ryu"),
            ("リョ", "ryo"),
        ],
        Category::KatakanaSmall => vec![
            ("ァ", "a"), ("ィ", "i"), ("ゥ", "u"), ("ェ", "e"), ("ォ", "o"), ("ッ", "tsu"),
        ],
        Category::KatakanaLong => vec![
            ("アー", "a"), ("イー", "i"), ("ウー", "u"), ("エー", "e"), ("オー", "o"),
        ],    }
}

/// The glyphs of a category, in their fixed order.
pub open spec fn glyphs(c: Category) -> Seq<&'static str> {
    entries(c).map_values(|e: (&'static str, &'static str)| e.0)
}

/// The entries of the first `n` categories, one category after another.
pub open spec fn table_upto(n: int) -> Seq<(&'static str, &'static str)>
    decreases n,
{
    if n <= 0 {
        Seq::empty()
    } else {
        table_upto(n - 1) + entries(Category::at(n - 1))
    }
}

/// The whole table: every category's entries, in category order.
pub open spec fn kana_table() -> Seq<(&'static str, &'static str)> {
    table_upto(CATEGORY_COUNT as int)
}

/// The reading of the first entry of `t` whose glyph is `g`, if any.
pub open spec fn reading_in(t: Seq<(&'static str, &'static str)>, g: Seq<char>) -> Option<
    &'static str,
>
    decreases t.len(),
{
    if t.len() == 0 {
        None
    } else if t[0].0@ == g {
        Some(t[0].1)
    } else {
        reading_in(t.drop_first(), g)
    }
}

/// The canonical reading of glyph `g`.
pub open spec fn reading_of(g: Seq<char>) -> Option<&'static str> {
    reading_in(kana_table(), g)
}

proof fn lemma_reading_in_first(t: Seq<(&'static str, &'static str)>, g: Seq<char>, i: int)
    requires
        0 <= i <= t.len(),
        forall|j: int| 0 <= j < i ==> t[j].0@ != g,
    ensures
        i < t.len() && t[i].0@ == g ==> reading_in(t, g) == Some(t[i].1),
        i == t.len() ==> reading_in(t, g) is None,
    decreases i,
{
    if i > 0 {
        lemma_reading_in_first(t.drop_first(), g, i - 1);
    }
}

proof fn lemma_reading_in_found(t: Seq<(&'static str, &'static str)>, g: Seq<char>, j: int)
    requires
        0 <= j < t.len(),
        t[j].0@ == g,
    ensures
        reading_in(t, g) is Some,
    decreases t.len(),
{
    if t[0].0@ != g {
        lemma_reading_in_found(t.drop_first(), g, j - 1);
    }
}

proof fn lemma_table_upto_index(p: int, n: int, i: int)
    requires
        0 <= p < n,
        0 <= i < entries(Category::at(p)).len(),
    ensures
        table_upto(p).len() + i < table_upto(n).len(),
        table_upto(n)[table_upto(p).len() + i] == entries(Category::at(p))[i],
    decreases n,
{
    if n > p + 1 {
        lemma_table_upto_index(p, n - 1, i);
    }
}

/// Every glyph listed in a category has a reading: lookup is total over the table's glyphs.
pub proof fn lemma_lookup_total(c: Category, i: int)
    requires
        0 <= i < glyphs(c).len(),
    ensures
        reading_of(glyphs(c)[i]@) is Some,
{
    c.lemma_at_position();
    lemma_table_upto_index(c.position(), CATEGORY_COUNT as int, i);
    lemma_reading_in_found(kana_table(), glyphs(c)[i]@, table_upto(c.position()).len() + i);
}

/// The glyphs of each category number 46, 15, 21, 6 and 5 for the base, dakuten, combination,
/// small and long groups, in hiragana and katakana alike; the table holds them all.
pub proof fn lemma_category_sizes()
    ensures
        glyphs(Category::HiraganaBase).len() == 46,
        glyphs(Category::HiraganaDakuten).len() == 15,
        glyphs(Category::HiraganaCombo).len() == 21,
        glyphs(Category::HiraganaSmall).len() == 6,
        glyphs(Category::HiraganaLong).len() == 5,
        glyphs(Category::KatakanaBase).len() == 46,
        glyphs(Category::KatakanaDakuten).len() == 15,
        glyphs(Category::KatakanaCombo).len() == 21,
        glyphs(Category::KatakanaSmall).len() == 6,
        glyphs(Category::KatakanaLong).len() == 5,
        kana_table().len() == 186,
{
    reveal_with_fuel(table_upto, 11);
}

/// Builds the whole table, category after category.
pub fn init_kana_map() -> (r: Vec<(&'static str, &'static str)>)
    ensures
        r@ == kana_table(),
{
    let mut table: Vec<(&'static str, &'static str)> = Vec::new();
    let mut k: usize = 0;
    while k < CATEGORY_COUNT
        invariant
            k <= CATEGORY_COUNT,
            table@ == table_upto(k as int),
        decreases CATEGORY_COUNT - k,
    {
        let c = Category::from_index(k).unwrap();
        let mut group = category_entries(c);
        table.append(&mut group);
        k += 1;
    }
    table
}

/// Whether two strings hold the same characters.
pub fn same_text(a: &str, b: &str) -> (r: bool)
    ensures
        r == (a@ == b@),
{
    let n = a.unicode_len();
    if n != b.unicode_len() {
        return false;
    }
    let mut i: usize = 0;
    while i < n
        invariant
            n == a@.len() == b@.len(),
            i <= n,
            forall|j: int| 0 <= j < i ==> a@[j] == b@[j],
        decreases n - i,
    {
        if a.get_char(i) != b.get_char(i) {
            return false;
        }
        i += 1;
    }
    assert(a@ =~= b@);
    true
}

/// The fixed glyph-to-reading table, built once and only read afterwards.
pub struct KanaTable {
    pairs: Vec<(&'static str, &'static str)>,
}

impl KanaTable {
    #[verifier::type_invariant]
    spec fn holds_table(self) -> bool {
        self.pairs@ == kana_table()
    }

    pub fn new() -> (r: KanaTable) {
        KanaTable { pairs: init_kana_map() }
    }

    /// The canonical reading of `glyph`, or `None` for a glyph outside the table.
    pub fn lookup(&self, glyph: &str) -> (r: Option<&'static str>)
        ensures
            r == reading_of(glyph@),
    {
        proof {
            use_type_invariant(self);
        }
        let mut i: usize = 0;
        while i < self.pairs.len()
            invariant
                self.pairs@ == kana_table(),
                i <= self.pairs@.len(),
                forall|j: int| 0 <= j < i ==> self.pairs@[j].0@ != glyph@,
            decreases self.pairs@.len() - i,
        {
            if same_text(self.pairs[i].0, glyph) {
                proof {
                    lemma_reading_in_first(kana_table(), glyph@, i as int);
                }
                return Some(self.pairs[i].1);
            }
            i += 1;
        }
        proof {
            lemma_reading_in_first(kana_table(), glyph@, i as int);
        }
        None
    }
}

/// The glyphs of the enabled categories among the first `n`, category after category.
pub open spec fn pool_upto(sel: Seq<bool>, n: int) -> Seq<&'static str>
    decreases n,
{
    if n <= 0 {
        Seq::empty()
    } else if sel[n - 1] {
        pool_upto(sel, n - 1) + glyphs(Category::at(n - 1))
    } else {
        pool_upto(sel, n - 1)
    }
}

/// The candidate glyphs of a selection: those of every enabled category, in category order.
pub open spec fn pool(sel: Seq<bool>) -> Seq<&'static str> {
    pool_upto(sel, CATEGORY_COUNT as int)
}

proof fn lemma_pool_upto_member(sel: Seq<bool>, n: int, i: int)
    requires
        0 <= n <= CATEGORY_COUNT,
        0 <= i < pool_upto(sel, n).len(),
    ensures
        exists|c: Category, j: int|
            0 <= c.position() < n && sel[c.position()] && 0 <= j < glyphs(c).len()
                && #[trigger] glyphs(c)[j] == pool_upto(sel, n)[i],
    decreases n,
{
    let prev = pool_upto(sel, n - 1);
    let c = Category::at(n - 1);
    if i < prev.len() {
        lemma_pool_upto_member(sel, n - 1, i);
    } else {
        assert(c.position() == n - 1);
        assert(glyphs(c)[i - prev.len()] == pool_upto(sel, n)[i]);
    }
}

/// Every candidate of a selection is a glyph of one of its enabled categories.
pub proof fn lemma_pool_member(sel: Seq<bool>, i: int)
    requires
        0 <= i < pool(sel).len(),
    ensures
        exists|c: Category, j: int|
            sel[c.position()] && 0 <= j < glyphs(c).len() && #[trigger] glyphs(c)[j]
                == pool(sel)[i],
{
    lemma_pool_upto_member(sel, CATEGORY_COUNT as int, i);
}

proof fn lemma_pool_upto_empty(sel: Seq<bool>, n: int)
    requires
        0 <= n <= CATEGORY_COUNT,
    ensures
        pool_upto(sel, n).len() == 0 <==> forall|k: int| 0 <= k < n ==> !sel[k],
    decreases n,
{
    if n > 0 {
        lemma_category_sizes();
        lemma_pool_upto_empty(sel, n - 1);
        assert(glyphs(Category::at(n - 1)).len() > 0);
    }
}

/// A selection has no candidates exactly when none of its ten flags is set.
pub proof fn lemma_pool_empty(sel: Seq<bool>)
    ensures
        pool(sel).len() == 0 <==> forall|k: int| 0 <= k < CATEGORY_COUNT ==> !sel[k],
{
    lemma_pool_upto_empty(sel, CATEGORY_COUNT as int);
}

/// With one category enabled, the candidates are exactly that category's glyphs.
pub proof fn lemma_pool_single(sel: Seq<bool>, c: Category)
    requires
        sel.len() == CATEGORY_COUNT,
        forall|k: int| 0 <= k < CATEGORY_COUNT ==> sel[k] == (k == c.position()),
    ensures
        pool(sel) == glyphs(c),
{
    reveal_with_fuel(pool_upto, 11);
    assert(pool(sel) =~= glyphs(c));
}

impl KanaTable {
    /// The candidate glyphs of the categories that `sel` enables, category after category.
    pub fn glyphs_for(&self, sel: &CategorySelection) -> (r: Vec<&'static str>)
        ensures
            r@ == pool(sel@),
    {
        let mut out: Vec<&'static str> = Vec::new();
        let mut k: usize = 0;
        while k < CATEGORY_COUNT
            invariant
                k <= CATEGORY_COUNT,
                out@ == pool_upto(sel@, k as int),
            decreases CATEGORY_COUNT - k,
        {
            if sel.is_enabled(k) {
                let c = Category::from_index(k).unwrap();
                let group = category_entries(c);
                let ghost start = out@;
                let mut j: usize = 0;
                while j < group.len()
                    invariant
                        group@ == entries(c),
                        j <= group@.len(),
                        out@ == start + glyphs(c).take(j as int),
                    decreases group@.len() - j,
                {
                    out.push(group[j].0);
                    assert(glyphs(c).take(j + 1) =~= glyphs(c).take(j as int).push(group@[j as int].0));
                    j += 1;
                }
                assert(glyphs(c).take(j as int) =~= glyphs(c));
            }
            k += 1;
        }
        out
    }
}

} // verus!
