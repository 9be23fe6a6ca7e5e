//! Recognised segments: their order within a window and the line that each
//! is rendered as.

use vstd::prelude::*;
use vstd::string::StringExecFns;

verus! {

/// One recognised span of speech. The times are offsets within the window,
/// in the unit of the recognition engine.
#[derive(Clone, Debug, PartialEq, Eq)]
pub struct Segment {
    pub start: i64,
    pub end: i64,
    pub text: String,
}

/// Model of a [`Segment`].
pub struct SegmentModel {
    pub start: int,
    pub end: int,
    pub text: Seq<char>,
}

impl View for Segment {
    type V = SegmentModel;

    open spec fn view(&self) -> SegmentModel {
        SegmentModel { start: self.start as int, end: self.end as int, text: self.text@ }
    }
}

/// The models of a sequence of segments, in order.
pub open spec fn segment_models(segments: Seq<Segment>) -> Seq<SegmentModel> {
    Seq::new(segments.len(), |i: int| segments[i]@)
}

/// The character of a decimal digit.
pub open spec fn digit(d: nat) -> char {
    if d == 0 {
        '0'
    } else if d == 1 {
        '1'
    } else if d == 2 {
        '2'
    } else if d == 3 {
        '3'
    } else if d == 4 {
        '4'
    } else if d == 5 {
        '5'
    } else if d == 6 {
        '6'
    } else if d == 7 {
        '7'
    } else if d == 8 {
        '8'
    } else {
        '9'
    }
}

/// A natural number in decimal, without leading zeros.
pub open spec fn decimal(n: nat) -> Seq<char>
    decreases n,
{
    if n < 10 {
        seq![digit(n)]
    } else {
        decimal(n / 10).push(digit(n % 10))
    }
}

/// An integer in decimal, with a minus sign in front if it is negative.
pub open spec fn signed_decimal(v: int) -> Seq<char> {
    if v < 0 {
        seq!['-'] + decimal((-v) as nat)
    } else {
        decimal(v as nat)
    }
}

impl SegmentModel {
    /// The line that shows the segment: `[start - end]: text`.
    pub open spec fn rendered(self) -> Seq<char> {
        seq!['['] + signed_decimal(self.start) + seq![' ', '-', ' '] + signed_decimal(self.end)
            + seq![']', ':', ' '] + self.text
    }
}

/// The start times never decrease along the sequence.
pub open spec fn ordered_by_start(segments: Seq<SegmentModel>) -> bool {
    forall|i: int, j: int|
        0 <= i <= j < segments.len() ==> (#[trigger] segments[i]).start <= (
        #[trigger] segments[j]).start
}

fn digit_str(d: u64) -> (s: &'static str)
    requires
        d < 10,
    ensures
        s@ == seq![digit(d as nat)],
{
    proof {
        reveal_strlit("0");
        reveal_strlit("1");
        reveal_strlit("2");
        reveal_strlit("3");
        reveal_strlit("4");
        reveal_strlit("5");
        reveal_strlit("6");
        reveal_strlit("7");
        reveal_strlit("8");
        reveal_strlit("9");
    }
    let s = if d == 0 {
        "0"
    } else if d == 1 {
        "1"
    } else if d == 2 {
        "2"
    } else if d == 3 {
        "3"
    } else if d == 4 {
        "4"
    } else if d == 5 {
        "5"
    } else if d == 6 {
        "6"
    } else if d == 7 {
        "7"
    } else if d == 8 {
        "8"
    } else {
        "9"
    };
    assert(s@ =~= seq![digit(d as nat)]);
    s
}

/// Appends a natural number in decimal.
pub fn push_decimal(out: &mut String, n: u64)
    ensures
        final(out)@ == old(out)@ + decimal(n as nat),
    decreases n,
{
    if n >= 10 {
        push_decimal(out, n / 10);
    }
    out.append(digit_str(n % 10));
    assert(out@ =~= old(out)@ + decimal(n as nat));
}

/// Appends an integer in decimal.
pub fn push_signed_decimal(out: &mut String, v: i64)
    ensures
        final(out)@ == old(out)@ + signed_decimal(v as int),
{
    if v < 0 {
        proof {
            reveal_strlit("-");
        }
        out.append("-");
        let magnitude: u64 = (-(v + 1)) as u64 + 1;
        push_decimal(out, magnitude);
        assert(out@ =~= old(out)@ + signed_decimal(v as int));
    } else {
        push_decimal(out, v as u64);
    }
}

impl Segment {
    /// Renders the segment as `[start - end]: text`.
    pub fn render(&self) -> (line: String)
        ensures
            line@ == self@.rendered(),
    {
        proof {
            reveal_strlit("[");
            reveal_strlit(" - ");
            reveal_strlit("]: ");
        }
        let mut line = String::new();
        line.append("[");
        push_signed_decimal(&mut line, self.start);
        line.append(" - ");
        push_signed_decimal(&mut line, self.end);
        line.append("]: ");
        line.append(self.text.as_str());
        assert(line@ =~= self@.rendered());
        line
    }
}

/// Whether the start times never decrease along the segments.
pub fn is_ordered(segments: &Vec<Segment>) -> (ordered: bool)
    ensures
        ordered == ordered_by_start(segment_models(segments@)),
{
    let ghost models = segment_models(segments@);
    let mut i: usize = 1;
    while i < segments.len()
        invariant
            1 <= i,
            models == segment_models(segments@),
            forall|a: int, b: int|
                0 <= a <= b < i && b < models.len() ==> (#[trigger] models[a]).start <= (
                #[trigger] models[b]).start,
        decreases segments.len() - i,
    {
        if segments[i - 1].start > segments[i].start {
            proof {
                assert(models[i - 1].start > models[i as int].start);
            }
            return false;
        }
        proof {
            assert forall|a: int, b: int| 0 <= a <= b < i + 1 && b < models.len() implies (
            #[trigger] models[a]).start <= (#[trigger] models[b]).start by {
                if b == i && a < i {
                    assert(models[a].start <= models[i - 1].start);
                    assert(models[i - 1].start <= models[i as int].start);
                }
            }
        }
        i += 1;
    }
    true
}

} // verus!
