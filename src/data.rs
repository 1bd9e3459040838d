use vstd::prelude::*;

verus! {

/// One language's recipe table. The payload is opaque to the registry and is
/// kept as its serialized text.
#[derive(Debug, Clone)]
pub struct LanguageTable {
    pub name: String,
    pub recipes: String,
}

/// Whether some entry of `s` is keyed by `name`.
pub open spec fn has_name(s: Seq<(Seq<char>, Seq<char>)>, name: Seq<char>) -> bool {
    exists|i: int| 0 <= i < s.len() && #[trigger] s[i].0 == name
}

/// No two entries of `s` share a key: `s` is a mapping.
pub open spec fn names_distinct(s: Seq<(Seq<char>, Seq<char>)>) -> bool {
    forall|i: int, j: int| 0 <= i < j < s.len() ==> #[trigger] s[i].0 != #[trigger] s[j].0
}

/// `s` with the table of `name` set to `recipes`: replaced where the key is
/// present, appended where it is not.
pub open spec fn with_table(
    s: Seq<(Seq<char>, Seq<char>)>,
    name: Seq<char>,
    recipes: Seq<char>,
) -> Seq<(Seq<char>, Seq<char>)> {
    if has_name(s, name) {
        s.map_values(
            |e: (Seq<char>, Seq<char>)|
                if e.0 == name {
                    (name, recipes)
                } else {
                    e
                },
        )
    } else {
        s.push((name, recipes))
    }
}

/// The language-keyed recipe tables of one snapshot, in the order their
/// languages were first inserted.
#[derive(Debug, Clone)]
pub struct DependencyRegistryLanguageData {
    tables: Vec<LanguageTable>,
}

impl View for DependencyRegistryLanguageData {
    type V = Seq<(Seq<char>, Seq<char>)>;

    closed spec fn view(&self) -> Seq<(Seq<char>, Seq<char>)> {
        self.tables@.map_values(|t: LanguageTable| (t.name@, t.recipes@))
    }
}

impl DependencyRegistryLanguageData {
    pub open spec fn wf(&self) -> bool {
        names_distinct(self@)
    }

    /// A table set with no language in it.
    pub fn new() -> (r: Self)
        ensures
            r@ == Seq::<(Seq<char>, Seq<char>)>::empty(),
            r.wf(),
    {
        let r = DependencyRegistryLanguageData { tables: Vec::new() };
        assert(r@ =~= Seq::<(Seq<char>, Seq<char>)>::empty());
        r
    }

    /// Number of languages.
    pub fn len(&self) -> (r: usize)
        ensures
            r == self@.len(),
    {
        self.tables.len()
    }

    /// The language name and recipe text at position `i`.
    pub fn entry(&self, i: usize) -> (r: (&String, &String))
        requires
            i < self@.len(),
        ensures
            (r.0@, r.1@) == self@[i as int],
    {
        (&self.tables[i].name, &self.tables[i].recipes)
    }

    /// Sets the recipe table of `name`, replacing the one it had.
    pub fn insert(&mut self, name: String, recipes: String)
        requires
            old(self).wf(),
        ensures
            final(self)@ == with_table(old(self)@, name@, recipes@),
            final(self).wf(),
    {
        let ghost s = self@;
        let n = self.tables.len();
        let mut i: usize = 0;
        while i < n
            invariant
                n == self.tables.len(),
                self@ == s,
                s == old(self)@,
                names_distinct(s),
                i <= n,
                forall|k: int| 0 <= k < i ==> #[trigger] s[k].0 != name@,
            decreases n - i,
        {
            if self.tables[i].name == name {
                let ghost at = i as int;
                let ghost tables_before = self.tables@;
                let ghost entry = (name@, recipes@);
                self.tables.set(i, LanguageTable { name, recipes });
                proof {
                    assert(self.tables@ == tables_before.update(at, self.tables@[at]));
                    assert(self@[at] == entry);
                    assert forall|k: int| 0 <= k < s.len() && k != at implies self@[k] == s[k] by {
                        assert(self.tables@[k] == tables_before[k]);
                    }
                    assert(s[at].0 == name@);
                    assert(has_name(s, name@));
                    assert forall|k: int| 0 <= k < s.len() && k != at implies s[k].0 != name@ by {
                        if k < at {
                            assert(s[k].0 != s[at].0);
                        } else {
                            assert(s[at].0 != s[k].0);
                        }
                    }
                    assert(self@ =~= with_table(s, name@, recipes@));
                }
                return;
            }
            i = i + 1;
        }
        self.tables.push(LanguageTable { name, recipes });
        proof {
            assert(!has_name(s, name@));
            assert(self@ =~= s.push((name@, recipes@)));
        }
    }

    /// The recipe text of `name`, if that language has a table.
    pub fn get(&self, name: &str) -> (r: Option<&String>)
        ensures
            r is None <==> !has_name(self@, name@),
            r is Some ==> exists|i: int|
                0 <= i < self@.len() && #[trigger] self@[i] == (name@, r->0@),
    {
        let key = name.to_owned();
        let n = self.tables.len();
        let mut i: usize = 0;
        while i < n
            invariant
                n == self.tables.len(),
                key@ == name@,
                i <= n,
                forall|k: int| 0 <= k < i ==> #[trigger] self@[k].0 != name@,
            decreases n - i,
        {
            if self.tables[i].name == key {
                assert(self@[i as int] == (name@, self.tables[i as int].recipes@));
                assert(self@[i as int].0 == name@);
                return Some(&self.tables[i].recipes);
            }
            i = i + 1;
        }
        None
    }
}

impl Default for DependencyRegistryLanguageData {
    fn default() -> (r: Self)
        ensures
            r@ == Seq::<(Seq<char>, Seq<char>)>::empty(),
            r.wf(),
    {
        DependencyRegistryLanguageData::new()
    }
}

/// A registry snapshot: its schema version and its recipe tables.
#[derive(Debug, Clone)]
pub struct DependencyRegistryData {
    pub version: usize,
    pub languages: DependencyRegistryLanguageData,
}

impl DependencyRegistryData {
    pub fn new(version: usize, languages: DependencyRegistryLanguageData) -> (r: Self)
        ensures
            r == (DependencyRegistryData { version, languages }),
    {
        DependencyRegistryData { version, languages }
    }
}

impl Default for DependencyRegistryData {
    /// Version zero with no tables.
    fn default() -> (r: Self)
        ensures
            r.version == 0,
            r.languages@ == Seq::<(Seq<char>, Seq<char>)>::empty(),
    {
        DependencyRegistryData { version: 0, languages: DependencyRegistryLanguageData::new() }
    }
}

} // verus!
