use vstd::prelude::*;

verus! {

/// A year and month as read from the machine's local clock. Its fields are
/// private: a value of this type comes only from a reading of the clock.
#[derive(Debug, Clone, Copy)]
pub struct LocalMonth {
    year: i32,
    month: u32,
}

impl LocalMonth {
    /// The year that was read.
    pub closed spec fn read_year(&self) -> i32 {
        self.year
    }

    /// The month that was read.
    pub closed spec fn read_month(&self) -> u32 {
        self.month
    }

    /// The year that was read.
    pub fn year(&self) -> (y: i32)
        ensures
            y == self.read_year(),
    {
        self.year
    }

    /// The month that was read.
    pub fn month(&self) -> (m: u32)
        ensures
            m == self.read_month(),
    {
        self.month
    }
}

/// `chrono::Local::now`, read as its year and its month. The month is one of
/// 1 to 12; nothing else is stated of the result, which is the time of the
/// machine's clock in its time zone.
#[verifier::external_body]
pub(crate) fn local_year_month() -> (r: LocalMonth)
    ensures
        1 <= r.read_month() <= 12,
{
    let now = chrono::Local::now();
    LocalMonth { year: chrono::Datelike::year(&now), month: chrono::Datelike::month(&now) }
}

} // verus!
