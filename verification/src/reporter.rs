//! Layout state of the console reporter.
//!
//! The console reporter aligns every benchmark's row on the widest
//! benchmark name of the group being printed, with a floor wide
//! enough for the header's `Benchmark` column. The width bookkeeping
//! is verified here; the printing itself is unverified shell.

use vstd::prelude::*;
use vstd::utf8::encode_utf8;

verus! {

/// The column width a name needs: its length in bytes.
pub open spec fn spec_name_width(name: Seq<char>) -> int {
    (encode_utf8(name).len() as usize) as int
}

/// The widest name among `names[0..i]`, or zero for none.
pub open spec fn spec_max_width(names: Seq<String>, i: int) -> int
    decreases i,
{
    if i <= 0 {
        0
    } else {
        let w = spec_name_width(names[i - 1]@);
        let rest = spec_max_width(names, i - 1);
        if w > rest {
            w
        } else {
            rest
        }
    }
}

/// The header's own `Benchmark` column needs nine characters.
pub open spec fn header_width() -> int {
    9
}

/// The console reporter's layout state: the column width that rows of
/// the current group are padded to.
pub struct ConsoleReporter {
    pub name_width_max: usize,
}

impl ConsoleReporter {
    /// A fresh reporter pads to the header's own width.
    pub fn new() -> (r: ConsoleReporter)
        ensures
            r.name_width_max == header_width(),
    {
        ConsoleReporter { name_width_max: 9 }
    }

    /// Adopts a group's widest benchmark name as the column width,
    /// when it is wider than the header.
    pub fn observe_group(&mut self, names: &Vec<String>)
        ensures
            final(self).name_width_max == if spec_max_width(names@, names@.len() as int)
                > header_width() {
                spec_max_width(names@, names@.len() as int)
            } else {
                old(self).name_width_max as int
            },
    {
        let mut w: usize = 0;
        let mut i: usize = 0;
        let n: usize = names.len();
        while i < n
            invariant
                0 <= i <= n,
                n == names@.len(),
                w == spec_max_width(names@, i as int),
            decreases n - i,
        {
            let len: usize = names[i].as_str().len();
            if len > w {
                w = len;
            }
            i = i + 1;
        }
        if w > 9 {
            self.name_width_max = w;
        }
    }

    /// How many spaces pad one benchmark's name to the column width;
    /// zero when the name is at least as wide.
    pub fn padding_for(&self, name: &str) -> (p: usize)
        ensures
            p == if self.name_width_max >= spec_name_width(name@) {
                self.name_width_max - spec_name_width(name@)
            } else {
                0
            },
    {
        let len: usize = name.len();
        if self.name_width_max >= len {
            self.name_width_max - len
        } else {
            0
        }
    }
}

} // verus!
