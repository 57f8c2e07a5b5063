//! The order in which day, month and year appear in a file name.

use vstd::prelude::*;

verus! {

/// The arrangement of the three date components.
#[derive(Clone, Copy, Debug, PartialEq, Eq, Structural)]
pub enum DateOrder {
    /// Day, month, year.
    DMY,
    /// Month, day, year.
    MDY,
    /// Year, month, day.
    YMD,
}

impl DateOrder {
    /// The textual form of an order: its name in lower case.
    pub open spec fn name_text(self) -> Seq<char> {
        match self {
            DateOrder::DMY => seq!['d', 'm', 'y'],
            DateOrder::MDY => seq!['m', 'd', 'y'],
            DateOrder::YMD => seq!['y', 'm', 'd'],
        }
    }

    /// Returns the textual form of the order.
    pub fn name(self) -> (name: &'static str)
        ensures
            name@ == self.name_text(),
    {
        match self {
            DateOrder::DMY => {
                proof {
                    reveal_strlit("dmy");
                }
                "dmy"
            },
            DateOrder::MDY => {
                proof {
                    reveal_strlit("mdy");
                }
                "mdy"
            },
            DateOrder::YMD => {
                proof {
                    reveal_strlit("ymd");
                }
                "ymd"
            },
        }
    }
}

} // verus!
