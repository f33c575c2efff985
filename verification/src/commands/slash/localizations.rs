//! Per-language texts of argument names and descriptions.
//!
//! A [`Localizations`] maps a language code (such as `"es-ES"`) to the text
//! for that language. Setting a language twice keeps the last text.

use vstd::prelude::*;

verus! {

/// No two entries share a language.
pub open spec fn languages_unique(entries: Seq<(String, String)>) -> bool {
    forall|i: int, j: int|
        0 <= i < j < entries.len() ==> #[trigger] entries[i].0@ != #[trigger] entries[j].0@
}

/// Whether some entry is for `lang`.
pub open spec fn has_language(entries: Seq<(String, String)>, lang: Seq<char>) -> bool {
    exists|i: int| 0 <= i < entries.len() && #[trigger] entries[i].0@ == lang
}

/// The language-to-text map that a list of entries with distinct languages
/// stands for.
pub open spec fn entries_map(entries: Seq<(String, String)>) -> Map<Seq<char>, Seq<char>> {
    Map::new(
        |lang: Seq<char>| has_language(entries, lang),
        |lang: Seq<char>|
            entries[choose|i: int| 0 <= i < entries.len() && #[trigger] entries[i].0@ == lang].1@,
    )
}

/// Localized versions of one text, keyed by language code.
pub struct Localizations {
    entries: Vec<(String, String)>,
}

impl Localizations {
    /// The entries have distinct languages.
    #[verifier::type_invariant]
    closed spec fn wf(self) -> bool {
        languages_unique(self.entries@)
    }
}

impl View for Localizations {
    type V = Map<Seq<char>, Seq<char>>;

    closed spec fn view(&self) -> Map<Seq<char>, Seq<char>> {
        entries_map(self.entries@)
    }
}

impl Localizations {
    /// No localized texts.
    pub fn new() -> (l: Localizations)
        ensures
            l@ == Map::<Seq<char>, Seq<char>>::empty(),
    {
        let l = Localizations { entries: Vec::new() };
        assert(l@ =~= Map::<Seq<char>, Seq<char>>::empty());
        l
    }

    /// Sets the text for a language, replacing any text it had.
    pub fn insert(&mut self, lang: String, text: String)
        ensures
            final(self)@ == old(self)@.insert(lang@, text@),
    {
        proof {
            use_type_invariant(&*self);
        }
        let mut entries: Vec<(String, String)> = Vec::new();
        std::mem::swap(&mut entries, &mut self.entries);
        let ghost before = entries@;
        let n = entries.len();
        let mut i: usize = 0;
        while i < n
            invariant
                n == entries.len(),
                entries@ == before,
                languages_unique(before),
                i <= n,
                forall|j: int| 0 <= j < i ==> #[trigger] before[j].0@ != lang@,
            ensures
                i < n ==> before[i as int].0@ == lang@,
            decreases n - i,
        {
            if entries[i].0 == lang {
                break;
            }
            i = i + 1;
        }
        if i < n {
            let ghost at = i as int;
            let ghost entry = (lang, text);
            entries.set(i, (lang, text));
            proof {
                assert(entries@[at] == entry);
                lemma_replace_entry(before, at, entries@);
            }
        } else {
            entries.push((lang, text));
            proof {
                lemma_append_entry(before, entries@);
            }
        }
        self.entries = entries;
    }

    /// The text for a language, if set.
    pub fn get(&self, lang: &String) -> (text: Option<String>)
        ensures
            match text {
                Some(t) => self@.contains_key(lang@) && self@[lang@] == t@,
                None => !self@.contains_key(lang@),
            },
    {
        proof {
            use_type_invariant(self);
        }
        let n = self.entries.len();
        let mut i: usize = 0;
        while i < n
            invariant
                n == self.entries.len(),
                languages_unique(self.entries@),
                i <= n,
                forall|j: int| 0 <= j < i ==> #[trigger] self.entries@[j].0@ != lang@,
            decreases n - i,
        {
            if self.entries[i].0 == *lang {
                proof {
                    let s = self.entries@;
                    assert(has_language(s, lang@));
                    let k = choose|k: int| 0 <= k < s.len() && #[trigger] s[k].0@ == lang@;
                    if k != i as int {
                        if k < i {
                            assert(s[k].0@ != lang@);
                        } else {
                            assert(s[i as int].0@ != s[k].0@);
                        }
                    }
                }
                return Some(self.entries[i].1.clone());
            }
            i = i + 1;
        }
        None
    }

    /// The number of languages with a text.
    pub fn len(&self) -> (n: usize)
        ensures
            n == self@.len(),
    {
        proof {
            use_type_invariant(self);
            lemma_entries_map_len(self.entries@);
        }
        self.entries.len()
    }

    /// The (language, text) pairs, each language once.
    pub fn entries(&self) -> (entries: &Vec<(String, String)>)
        ensures
            languages_unique(entries@),
            entries_map(entries@) == self@,
    {
        proof {
            use_type_invariant(self);
        }
        &self.entries
    }
}

/// Overwriting the entry for a language that is present changes only that
/// language's text.
proof fn lemma_replace_entry(s: Seq<(String, String)>, at: int, t: Seq<(String, String)>)
    requires
        languages_unique(s),
        0 <= at < s.len(),
        t == s.update(at, t[at]),
        t[at].0@ == s[at].0@,
    ensures
        languages_unique(t),
        entries_map(t) == entries_map(s).insert(t[at].0@, t[at].1@),
{
    let lang = t[at].0@;
    assert forall|i: int, j: int| 0 <= i < j < t.len() implies #[trigger] t[i].0@ != #[trigger] t[j].0@ by {
        assert(s[i].0@ != s[j].0@);
    }
    let m = entries_map(s).insert(lang, t[at].1@);
    assert forall|k: Seq<char>| #[trigger] entries_map(t).contains_key(k) == m.contains_key(k) by {
        if has_language(t, k) {
            let w = choose|w: int| 0 <= w < t.len() && #[trigger] t[w].0@ == k;
            assert(s[w].0@ == k);
        }
        if has_language(s, k) {
            let w = choose|w: int| 0 <= w < s.len() && #[trigger] s[w].0@ == k;
            assert(t[w].0@ == k);
        }
    }
    assert forall|k: Seq<char>| #[trigger] entries_map(t).contains_key(k) implies entries_map(t)[k]
        == m[k] by {
        let wt = choose|w: int| 0 <= w < t.len() && #[trigger] t[w].0@ == k;
        assert(has_language(t, k));
        assert(t[wt].0@ == k);
        if k == lang {
            if wt != at {
                assert(t[wt].0@ != t[at].0@);
            }
        } else {
            assert(s[wt].0@ == k);
            assert(has_language(s, k));
            let ws = choose|w: int| 0 <= w < s.len() && #[trigger] s[w].0@ == k;
            if ws != wt {
                assert(s[ws].0@ != s[wt].0@);
            }
        }
    }
    assert(entries_map(t) =~= m);
}

/// Appending an entry for a language that is absent adds that language.
proof fn lemma_append_entry(s: Seq<(String, String)>, t: Seq<(String, String)>)
    requires
        languages_unique(s),
        t.len() == s.len() + 1,
        forall|j: int| 0 <= j < s.len() ==> t[j] == s[j],
        forall|j: int| 0 <= j < s.len() ==> #[trigger] s[j].0@ != t[s.len() as int].0@,
    ensures
        languages_unique(t),
        entries_map(t) == entries_map(s).insert(t[s.len() as int].0@, t[s.len() as int].1@),
{
    let last = s.len() as int;
    let lang = t[last].0@;
    assert forall|i: int, j: int| 0 <= i < j < t.len() implies #[trigger] t[i].0@ != #[trigger] t[j].0@ by {
        if j < last {
            assert(s[i].0@ != s[j].0@);
        } else {
            assert(s[i].0@ != lang);
        }
    }
    let m = entries_map(s).insert(lang, t[last].1@);
    assert forall|k: Seq<char>| #[trigger] entries_map(t).contains_key(k) == m.contains_key(k) by {
        if has_language(t, k) {
            let w = choose|w: int| 0 <= w < t.len() && #[trigger] t[w].0@ == k;
            if w < last {
                assert(s[w].0@ == k);
            }
        }
        if has_language(s, k) {
            let w = choose|w: int| 0 <= w < s.len() && #[trigger] s[w].0@ == k;
            assert(t[w].0@ == k);
        }
        if k == lang {
            assert(t[last].0@ == k);
        }
    }
    assert forall|k: Seq<char>| #[trigger] entries_map(t).contains_key(k) implies entries_map(t)[k]
        == m[k] by {
        let wt = choose|w: int| 0 <= w < t.len() && #[trigger] t[w].0@ == k;
        assert(has_language(t, k));
        assert(t[wt].0@ == k);
        if k == lang {
            if wt != last {
                assert(s[wt].0@ != lang);
            }
        } else {
            assert(wt != last);
            assert(s[wt].0@ == k);
            assert(has_language(s, k));
            let ws = choose|w: int| 0 <= w < s.len() && #[trigger] s[w].0@ == k;
            if ws != wt {
                assert(s[ws].0@ != s[wt].0@);
            }
        }
    }
    assert(entries_map(t) =~= m);
}

/// A list of entries with distinct languages has as many languages as
/// entries.
proof fn lemma_entries_map_len(s: Seq<(String, String)>)
    requires
        languages_unique(s),
    ensures
        entries_map(s).dom().finite(),
        entries_map(s).len() == s.len(),
    decreases s.len(),
{
    if s.len() == 0 {
        assert(entries_map(s) =~= Map::<Seq<char>, Seq<char>>::empty());
    } else {
        let p = s.drop_last();
        assert(languages_unique(p)) by {
            assert forall|i: int, j: int| 0 <= i < j < p.len() implies #[trigger] p[i].0@
                != #[trigger] p[j].0@ by {
                assert(s[i].0@ != s[j].0@);
            }
        }
        lemma_entries_map_len(p);
        assert forall|j: int| 0 <= j < p.len() implies #[trigger] p[j].0@ != s[p.len() as int].0@ by {
            assert(s[j].0@ != s[p.len() as int].0@);
        }
        lemma_append_entry(p, s);
        assert(!entries_map(p).contains_key(s[p.len() as int].0@)) by {
            if has_language(p, s[p.len() as int].0@) {
                let w = choose|w: int| 0 <= w < p.len() && #[trigger] p[w].0@ == s[p.len() as int].0@;
                assert(p[w].0@ != s[p.len() as int].0@);
            }
        }
    }
}

} // verus!
