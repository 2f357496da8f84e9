//! What is known of the languages beforehand: the environments that hold
//! mathematics, and the types of entries of a bibliography.

use crate::text::{opt_text, str_eq, to_uppercase, uppercased};
use vstd::prelude::*;

verus! {

/// A type of entry, with what there is to say about it.
#[derive(Debug, PartialEq, Eq, Clone)]
pub struct EntryTypeDoc {
    pub name: String,
    pub documentation: Option<String>,
}

/// What is known of the languages beforehand.
#[derive(Debug, PartialEq, Eq, Clone)]
pub struct LanguageData {
    pub math_environments: Vec<String>,
    pub entry_types: Vec<EntryTypeDoc>,
}

/// The first type from `k` on whose name is `name`, whatever the case of
/// either.
pub open spec fn entry_type_from(types: Seq<EntryTypeDoc>, name: Seq<char>, k: int) -> Option<int>
    decreases types.len() - k,
{
    if k < 0 || k >= types.len() {
        None
    } else if uppercased(types[k].name@) == uppercased(name) {
        Some(k)
    } else {
        entry_type_from(types, name, k + 1)
    }
}

/// Whether `name` is among the first `k` of `names`.
pub open spec fn name_among(names: Seq<String>, k: int, name: Seq<char>) -> bool {
    exists|i: int| 0 <= i < k && (#[trigger] names[i])@ == name
}

impl LanguageData {
    /// What there is to say about the type of entry with the given name.
    pub open spec fn documentation_of(&self, name: Seq<char>) -> Option<Seq<char>> {
        match entry_type_from(self.entry_types@, name, 0) {
            Some(k) => opt_text(self.entry_types@[k].documentation),
            None => None,
        }
    }

    /// Whether environments of the given name hold mathematics.
    pub open spec fn holds_math(&self, name: Seq<char>) -> bool {
        name_among(self.math_environments@, self.math_environments@.len() as int, name)
    }

    /// What there is to say about the type of entry with the given name.
    pub fn entry_type_documentation(&self, name: &str) -> (r: Option<String>)
        ensures
            opt_text(r) == self.documentation_of(name@),
    {
        let wanted = to_uppercase(name);
        let mut k: usize = 0;
        while k < self.entry_types.len()
            invariant
                k <= self.entry_types.len(),
                wanted@ == uppercased(name@),
                entry_type_from(self.entry_types@, name@, k as int) == entry_type_from(
                    self.entry_types@,
                    name@,
                    0,
                ),
            decreases self.entry_types.len() - k,
        {
            let upper = to_uppercase(self.entry_types[k].name.as_str());
            if str_eq(upper.as_str(), wanted.as_str()) {
                return match &self.entry_types[k].documentation {
                    Some(d) => Some(d.clone()),
                    None => None,
                };
            }
            k += 1;
        }
        None
    }

    /// Whether environments of the given name hold mathematics.
    pub fn is_math_environment(&self, name: &str) -> (r: bool)
        ensures
            r == self.holds_math(name@),
    {
        let mut k: usize = 0;
        while k < self.math_environments.len()
            invariant
                k <= self.math_environments.len(),
                !name_among(self.math_environments@, k as int, name@),
            decreases self.math_environments.len() - k,
        {
            if str_eq(self.math_environments[k].as_str(), name) {
                return true;
            }
            k += 1;
        }
        false
    }
}

} // verus!
