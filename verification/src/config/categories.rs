//! Icons of feed categories.
use vstd::prelude::*;

use crate::strings::str_eq;
use crate::types::Category;

verus! {

/// The color of a category icon: an RGB value, or a color name.
#[derive(Debug, Clone, PartialEq, Eq, Default)]
pub struct IconColor {
    pub rgb: Option<u32>,
    pub name: Option<String>,
}

/// The icon shown for a category.
#[derive(Debug, Clone, PartialEq, Eq)]
pub struct Icon {
    pub symbol: String,
    pub color: Option<IconColor>,
}

impl Icon {
    /// The symbol of the icon.
    pub fn symbol(&self) -> (s: &str)
        ensures
            s@ == self.symbol@,
    {
        self.symbol.as_str()
    }
}

/// How one category is shown.
#[derive(Debug, Clone, PartialEq, Eq)]
pub struct CategoryConfig {
    pub icon: Icon,
    pub aliases: Vec<String>,
}

/// The configuration of the category named `name`: the last one given for it.
pub open spec fn config_for(entries: Seq<(String, CategoryConfig)>, name: Seq<char>) -> Option<CategoryConfig>
    decreases entries.len(),
{
    if entries.len() == 0 {
        None
    } else if entries.last().0@ == name {
        Some(entries.last().1)
    } else {
        config_for(entries.drop_last(), name)
    }
}

/// Icons of categories by name; a later entry for a name overrides an earlier one.
#[derive(Debug, Clone, PartialEq, Eq)]
pub struct Categories {
    entries: Vec<(String, CategoryConfig)>,
}

impl Categories {
    /// The category configurations, in the order they were given.
    pub closed spec fn entries_view(&self) -> Seq<(String, CategoryConfig)> {
        self.entries@
    }

    /// The configuration of a category by name.
    pub open spec fn config(&self, name: Seq<char>) -> Option<CategoryConfig> {
        config_for(self.entries_view(), name)
    }

    /// Categories configured by the given entries, in order.
    pub fn new(entries: Vec<(String, CategoryConfig)>) -> (c: Categories)
        ensures
            c.entries_view() == entries@,
    {
        Categories { entries }
    }

    /// The icon of a category, if it is configured.
    pub fn icon(&self, category: &Category) -> (r: Option<&Icon>)
        ensures
            match self.config(category@) {
                Some(c) => r == Some(&c.icon),
                None => r is None,
            },
    {
        let name = category.as_str();
        let mut i = self.entries.len();
        assert(self.entries@.take(self.entries@.len() as int) =~= self.entries@);
        while i > 0
            invariant
                i <= self.entries@.len(),
                name@ == category@,
                config_for(self.entries@, name@) == config_for(self.entries@.take(i as int), name@),
            decreases i,
        {
            let entry = &self.entries[i - 1];
            proof {
                assert(self.entries@.take(i as int).drop_last() =~= self.entries@.take(i - 1));
            }
            if str_eq(entry.0.as_str(), name) {
                return Some(&entry.1.icon);
            }
            i -= 1;
        }
        None
    }

    /// Adds user-defined categories: each overrides the configuration of its name.
    pub fn merge(&mut self, user_defined: Vec<(String, CategoryConfig)>)
        ensures
            forall|n: Seq<char>| #[trigger] final(self).config(n) == match config_for(user_defined@, n) {
                Some(c) => Some(c),
                None => old(self).config(n),
            },
    {
        let ghost base = self.entries@;
        let mut user_defined = user_defined;
        let ghost src = user_defined@;
        self.entries.append(&mut user_defined);
        proof {
            assert forall|n: Seq<char>| #[trigger] config_for(base + src, n) == match config_for(src, n) {
                Some(c) => Some(c),
                None => config_for(base, n),
            } by {
                lemma_config_for_concat(base, src, n);
            }
        }
    }
}

proof fn lemma_config_for_concat(a: Seq<(String, CategoryConfig)>, b: Seq<(String, CategoryConfig)>, n: Seq<char>)
    ensures
        config_for(a + b, n) == match config_for(b, n) {
            Some(c) => Some(c),
            None => config_for(a, n),
        },
    decreases b.len(),
{
    if b.len() == 0 {
        assert(a + b =~= a);
    } else {
        assert((a + b).drop_last() =~= a + b.drop_last());
        lemma_config_for_concat(a, b.drop_last(), n);
    }
}

} // verus!
