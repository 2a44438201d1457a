//! A row of bars that shows the recent history of a gauge.

use vstd::prelude::*;
use vstd::string::*;

verus! {

/// The bar of a level from 0 (blank) to 8 (full).
pub open spec fn bar_char(level: int) -> char {
    if level <= 0 {
        ' '
    } else if level == 1 {
        '▁'
    } else if level == 2 {
        '▂'
    } else if level == 3 {
        '▃'
    } else if level == 4 {
        '▄'
    } else if level == 5 {
        '▅'
    } else if level == 6 {
        '▆'
    } else if level == 7 {
        '▇'
    } else {
        '█'
    }
}

/// The largest sample of `data`; 0 where there is none.
pub open spec fn peak_of(data: Seq<u32>) -> u32
    decreases data.len(),
{
    if data.len() == 0 {
        0
    } else if data.last() > peak_of(data.drop_last()) {
        data.last()
    } else {
        peak_of(data.drop_last())
    }
}

/// The level of a sample against the peak: eighths of the peak, rounded
/// down, and 8 at most.
pub open spec fn bar_level(value: u32, peak: u32) -> int {
    let level = (value * 8) / (peak as int);
    if level > 8 {
        8
    } else {
        level
    }
}

/// `count` blanks.
pub open spec fn blanks(count: nat) -> Seq<char> {
    Seq::new(count, |i: int| ' ')
}

/// The bars for `data`: one bar per sample, scaled to the largest one. Where
/// every sample is 0 the row is `length` blanks.
pub open spec fn sparkline_text(data: Seq<u32>, length: nat) -> Seq<char> {
    if data.len() > 0 && peak_of(data) == 0 {
        blanks(length)
    } else {
        Seq::new(data.len(), |i: int| bar_char(bar_level(data[i], peak_of(data))))
    }
}

fn bar_str(level: u64) -> (s: &'static str)
    ensures
        s@ == seq![bar_char(level as int)],
{
    proof {
        reveal_strlit(" ");
        reveal_strlit("▁");
        reveal_strlit("▂");
        reveal_strlit("▃");
        reveal_strlit("▄");
        reveal_strlit("▅");
        reveal_strlit("▆");
        reveal_strlit("▇");
        reveal_strlit("█");
    }
    let s = if level == 0 {
        " "
    } else if level == 1 {
        "▁"
    } else if level == 2 {
        "▂"
    } else if level == 3 {
        "▃"
    } else if level == 4 {
        "▄"
    } else if level == 5 {
        "▅"
    } else if level == 6 {
        "▆"
    } else if level == 7 {
        "▇"
    } else {
        "█"
    };
    assert(s@ =~= seq![bar_char(level as int)]);
    s
}

/// A string of `count` blanks.
pub fn repeat_blank(count: usize) -> (s: String)
    ensures
        s@ == blanks(count as nat),
{
    proof {
        reveal_strlit(" ");
    }
    let mut s = String::new();
    let mut i: usize = 0;
    while i < count
        invariant
            i <= count,
            s@ == blanks(i as nat),
            " "@ == seq![' '],
        decreases count - i,
    {
        s.append(" ");
        i += 1;
        assert(s@ =~= blanks(i as nat));
    }
    s
}

/// The largest sample of `data`.
pub fn peak(data: &Vec<u32>) -> (max: u32)
    ensures
        max == peak_of(data@),
{
    let mut max: u32 = 0;
    let mut i: usize = 0;
    while i < data.len()
        invariant
            i <= data.len(),
            max == peak_of(data@.subrange(0, i as int)),
        decreases data.len() - i,
    {
        assert(data@.subrange(0, i + 1).drop_last() =~= data@.subrange(0, i as int));
        if data[i] > max {
            max = data[i];
        }
        i += 1;
    }
    assert(data@.subrange(0, i as int) =~= data@);
    max
}

/// Renders the history `data` as a row of bars.
pub fn render_sparkline(data: &Vec<u32>, length: usize) -> (row: String)
    ensures
        row@ == sparkline_text(data@, length as nat),
{
    let max = peak(data);
    if data.len() > 0 && max == 0 {
        return repeat_blank(length);
    }
    let mut row = String::new();
    let mut i: usize = 0;
    while i < data.len()
        invariant
            i <= data.len(),
            max == peak_of(data@),
            max > 0 || data.len() == 0,
            row@ == Seq::new(i as nat, |k: int| bar_char(bar_level(data@[k], max))),
        decreases data.len() - i,
    {
        let scaled: u64 = (data[i] as u64 * 8) / (max as u64);
        let level: u64 = if scaled > 8 { 8 } else { scaled };
        row.append(bar_str(level));
        i += 1;
        assert(row@ =~= Seq::new(i as nat, |k: int| bar_char(bar_level(data@[k], max))));
    }
    assert(row@ =~= sparkline_text(data@, length as nat));
    row
}

} // verus!
