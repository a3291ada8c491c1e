use vstd::prelude::*;

verus! {

/// A byte of ASCII white space: space, tab, line feed, vertical tab, form
/// feed or carriage return.
pub open spec fn is_blank(b: u8) -> bool {
    b == 32 || (9 <= b && b <= 13)
}

/// The answer a line of input gives to a yes/no question: after leading
/// white space, `y` means yes and `n` means no; anything else, or nothing,
/// is no answer.
pub open spec fn answer_spec(line: Seq<u8>) -> Option<bool>
    decreases line.len(),
{
    if line.len() == 0 {
        None
    } else if is_blank(line[0]) {
        answer_spec(line.drop_first())
    } else if line[0] == 121 {
        Some(true)
    } else if line[0] == 110 {
        Some(false)
    } else {
        None
    }
}

/// Reads the answer to the question whether the cells should be saved;
/// `None` asks the caller to put the question again.
pub fn confirmation_answer(line: &[u8]) -> (r: Option<bool>)
    ensures
        r == answer_spec(line@),
{
    let mut i: usize = 0;
    assert(line@.subrange(0, line@.len() as int) =~= line@);
    while i < line.len()
        invariant
            i <= line@.len(),
            answer_spec(line@) == answer_spec(line@.subrange(i as int, line@.len() as int)),
        decreases line@.len() - i,
    {
        let b = line[i];
        let ghost rest = line@.subrange(i as int, line@.len() as int);
        assert(rest[0] == b);
        if b == 32 || (9 <= b && b <= 13) {
            assert(rest.drop_first() =~= line@.subrange(i + 1, line@.len() as int));
            i += 1;
        } else if b == 121 {
            return Some(true);
        } else if b == 110 {
            return Some(false);
        } else {
            return None;
        }
    }
    assert(line@.subrange(i as int, line@.len() as int).len() == 0);
    None
}

} // verus!
