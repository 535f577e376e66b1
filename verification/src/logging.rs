//! The line that a log record becomes before it is sent to the host
//! software.

use crate::payload::LogMessagePayload;
use vstd::prelude::*;
use vstd::string::*;

verus! {

/// What follows the message of a record: each value, the one noted last
/// first, behind a comma and a blank.
pub open spec fn values_text(values: Seq<Seq<char>>) -> Seq<char>
    decreases values.len(),
{
    if values.len() == 0 {
        Seq::empty()
    } else {
        seq![',', ' '] + values.last() + values_text(values.drop_last())
    }
}

/// The line of a record: the level, a blank, the message, then the values.
pub open spec fn log_text(level: Seq<char>, message: Seq<char>, values: Seq<Seq<char>>) -> Seq<
    char,
> {
    level + seq![' '] + message + values_text(values)
}

/// The texts of a vector of strings.
pub open spec fn texts_of(values: Seq<String>) -> Seq<Seq<char>> {
    Seq::new(values.len(), |i: int| values[i]@)
}

impl LogMessagePayload {
    /// Puts a record into one line. `values` are the key-value pairs of the
    /// record in the order in which they were noted; the line lists them from
    /// the last to the first.
    pub fn compose(level: &str, message: &str, values: &Vec<String>) -> (r: LogMessagePayload)
        ensures
            r@.message == log_text(level@, message@, texts_of(values@)),
    {
        let mut line = String::from_str(level);
        line.append(" ");
        line.append(message);
        proof {
            reveal_strlit(" ");
            reveal_strlit(", ");
        }
        assert(" "@ =~= seq![' ']);
        assert(", "@ =~= seq![',', ' ']);
        let ghost head = level@ + seq![' '] + message@;
        let ghost all = texts_of(values@);
        let mut at: usize = values.len();
        assert(all.take(at as int) == all);
        while at > 0
            invariant
                at <= values.len(),
                all == texts_of(values@),
                ", "@ == seq![',', ' '],
                line@ + values_text(all.take(at as int)) == head + values_text(all),
            decreases at,
        {
            let ghost rest = all.take(at as int);
            assert(rest.drop_last() == all.take(at - 1));
            assert(rest.last() == values@[at - 1]@);
            let ghost before = line@;
            at = at - 1;
            line.append(", ");
            line.append(values[at].as_str());
            assert(line@ + values_text(all.take(at as int)) == before + values_text(rest));
        }
        assert(all.take(0) == Seq::<Seq<char>>::empty());
        assert(line@ + Seq::<char>::empty() == line@);
        LogMessagePayload { message: line }
    }
}

} // verus!
