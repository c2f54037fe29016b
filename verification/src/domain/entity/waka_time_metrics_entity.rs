//! The statistics of one period, as far as a report reads them.

use crate::error::Error;
use vstd::prelude::*;

verus! {

/// The largest share of the total time: the whole of it, in hundredths of a
/// percent.
pub const FULL_SHARE: u32 = 10_000;

/// The answer of the statistics service.
#[derive(Debug, Clone)]
pub struct Metrics {
    pub data: Data,
}

/// The statistics of one period.
#[derive(Debug, Clone)]
pub struct Data {
    /// The label of the period, such as `last_7_days`.
    pub range: String,
    /// The languages, as the service orders them: largest share first.
    pub languages: Vec<Language>,
    /// The total time of the period, in words.
    pub human_readable_total_including_other_language: String,
}

/// The time spent in one language.
#[derive(Debug, Clone)]
pub struct Language {
    pub name: String,
    /// The time spent, in whole seconds.
    pub total_seconds: u64,
    /// The share of the total time, in hundredths of a percent.
    pub percent_hundredths: u32,
    /// The time spent, in words.
    pub text: String,
}

impl Language {
    /// The share is at most the whole.
    pub open spec fn wf(&self) -> bool {
        self.percent_hundredths <= FULL_SHARE
    }

    /// Tells whether the share is at most the whole.
    pub fn is_valid(&self) -> (b: bool)
        ensures
            b == self.wf(),
    {
        self.percent_hundredths <= FULL_SHARE
    }
}

impl Data {
    /// Every language holds a share of at most the whole.
    pub open spec fn wf(&self) -> bool {
        forall|i: int| 0 <= i < self.languages@.len() ==> (#[trigger] self.languages@[i]).wf()
    }

    /// Tells whether every language holds a share of at most the whole.
    pub fn is_valid(&self) -> (b: bool)
        ensures
            b == self.wf(),
    {
        let mut i: usize = 0;
        while i < self.languages.len()
            invariant
                i <= self.languages@.len(),
                forall|j: int| 0 <= j < i ==> (#[trigger] self.languages@[j]).wf(),
            decreases self.languages@.len() - i,
        {
            if !self.languages[i].is_valid() {
                return false;
            }
            i = i + 1;
        }
        true
    }
}

impl Metrics {
    /// The statistics are well formed.
    pub open spec fn wf(&self) -> bool {
        self.data.wf()
    }

    /// Tells whether the statistics are well formed.
    pub fn is_valid(&self) -> (b: bool)
        ensures
            b == self.wf(),
    {
        self.data.is_valid()
    }

    /// The statistics themselves, where they are well formed. Statistics
    /// with a share of more than the whole are malformed.
    pub fn validated(self) -> (r: Result<Metrics, Error>)
        ensures
            r == if self.wf() {
                Ok::<Metrics, Error>(self)
            } else {
                Err(Error::ParseFailed)
            },
    {
        if self.is_valid() {
            Ok(self)
        } else {
            Err(Error::ParseFailed)
        }
    }
}

} // verus!
