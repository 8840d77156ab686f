//! One configuration value from its sources: a default, the configuration file and a
//! command line flag (or its environment variable).
use vstd::prelude::*;

verus! {

/// A configuration value from its sources.
#[derive(Debug, Clone, PartialEq, Eq)]
pub struct Entry<T> {
    pub default: T,
    pub file: Option<T>,
    pub flag: Option<T>,
}

/// The value that wins: the flag, else the file, else the default.
pub open spec fn resolved<T>(e: Entry<T>) -> T {
    match e.flag {
        Some(v) => v,
        None => match e.file {
            Some(v) => v,
            None => e.default,
        },
    }
}

impl<T> Entry<T> {
    /// A value with only a default.
    pub fn with_default(default: T) -> (e: Entry<T>)
        ensures
            e == (Entry { default, file: None::<T>, flag: None::<T> }),
    {
        Entry { default, file: None, flag: None }
    }

    /// The value with the configuration file's value, if it gives one.
    pub fn with_file(self, file: Option<T>) -> (e: Entry<T>)
        ensures
            e == (Entry { file, ..self }),
    {
        Entry { file, ..self }
    }

    /// The value with the flag's value, if it gives one.
    pub fn with_flag(self, flag: Option<T>) -> (e: Entry<T>)
        ensures
            e == (Entry { flag, ..self }),
    {
        Entry { flag, ..self }
    }

    /// The value that wins.
    pub fn resolve_ref(&self) -> (v: &T)
        ensures
            *v == resolved(*self),
    {
        match &self.flag {
            Some(v) => v,
            None => match &self.file {
                Some(v) => v,
                None => &self.default,
            },
        }
    }
}

impl<T: Copy> Entry<T> {
    /// The value that wins.
    pub fn resolve(&self) -> (v: T)
        ensures
            v == resolved(*self),
    {
        *self.resolve_ref()
    }
}

/// A flag beats the file and the default; without a flag the file beats the default.
pub proof fn lemma_flag_then_file_then_default<T>(default: T, file: Option<T>, flag: Option<T>)
    ensures
        flag matches Some(v) ==> resolved(Entry { default, file, flag }) == v,
        flag is None ==> (file matches Some(v) ==> resolved(Entry { default, file, flag }) == v),
        flag is None && file is None ==> resolved(Entry { default, file, flag }) == default,
{
}

} // verus!
