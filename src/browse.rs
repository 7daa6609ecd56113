use vstd::prelude::*;

verus! {

/// The field of the entry form that typing goes to.
#[derive(Clone, Copy, Debug, PartialEq, Eq, Structural)]
pub enum InputField {
    Name,
    Guilt,
    Reason,
}

/// Tab moves from name to guilt to reason and back to name.
pub fn next_field(f: InputField) -> (r: InputField)
    ensures
        f == InputField::Name ==> r == InputField::Guilt,
        f == InputField::Guilt ==> r == InputField::Reason,
        f == InputField::Reason ==> r == InputField::Name,
{
    match f {
        InputField::Name => InputField::Guilt,
        InputField::Guilt => InputField::Reason,
        InputField::Reason => InputField::Name,
    }
}

/// The selection after moving down a list of `len` rows: one row further,
/// wrapping from the last row to the first; the first row where nothing was
/// selected.
pub fn select_next(selected: Option<usize>, len: usize) -> (r: usize)
    ensures
        match selected {
            Some(i) => r == (if i + 1 >= len { 0 } else { i + 1 }),
            None => r == 0,
        },
{
    match selected {
        Some(i) => {
            if i >= len || len - i <= 1 {
                0
            } else {
                i + 1
            }
        },
        None => 0,
    }
}

/// The selection after moving up a list of `len` rows: one row back,
/// wrapping from the first row to the last; the first row where nothing was
/// selected or the list is empty.
pub fn select_prev(selected: Option<usize>, len: usize) -> (r: usize)
    ensures
        match selected {
            Some(i) => r == (if len == 0 { 0 } else if i == 0 { len - 1 } else { i - 1 }),
            None => r == 0,
        },
{
    match selected {
        Some(i) => {
            if len == 0 {
                0
            } else if i == 0 {
                len - 1
            } else {
                i - 1
            }
        },
        None => 0,
    }
}

/// The selection after the row at `selected` was deleted, leaving `len`
/// rows: none in an empty list, the last row where the deleted one was the
/// last, otherwise the row that took its place.
pub fn select_after_delete(selected: usize, len: usize) -> (r: Option<usize>)
    ensures
        len == 0 ==> r is None,
        len > 0 ==> r == Some(if selected >= len { (len - 1) as usize } else { selected }),
{
    if len == 0 {
        None
    } else if selected >= len {
        Some(len - 1)
    } else {
        Some(selected)
    }
}

/// The characters the guilt field takes: decimal digits.
pub fn is_guilt_char(c: char) -> (r: bool)
    ensures
        r <==> ('0' <= c && c <= '9'),
{
    '0' <= c && c <= '9'
}

/// The value of a sequence of decimal digits.
pub open spec fn digits_value(s: Seq<char>) -> nat
    decreases s.len(),
{
    if s.len() == 0 {
        0
    } else {
        10 * digits_value(s.drop_last()) + (s.last() as nat - '0' as nat) as nat
    }
}

pub open spec fn all_digits(s: Seq<char>) -> bool {
    forall|i: int| 0 <= i < s.len() ==> '0' <= #[trigger] s[i] && s[i] <= '9'
}

/// Relies on str::parse::<u32>: a non-empty run of decimal digits gives its
/// value where that fits in a u32 and fails otherwise; empty text fails.
#[verifier::external_body]
fn parse_u32(s: &str) -> (r: Option<u32>)
    ensures
        s@.len() == 0 ==> r is None,
        s@.len() > 0 && all_digits(s@) ==> (r is Some <==> digits_value(s@) <= u32::MAX),
        s@.len() > 0 && all_digits(s@) && r is Some ==> r->Some_0 == digits_value(s@),
{
    s.parse::<u32>().ok()
}

/// The guilt level typed into the form: its value, or 0 where the field is
/// empty or the number does not fit.
pub fn guilt_from_input(s: &str) -> (r: u32)
    ensures
        s@.len() == 0 ==> r == 0,
        all_digits(s@) ==> r == (if digits_value(s@) <= u32::MAX { digits_value(s@) } else { 0 }),
{
    match parse_u32(s) {
        Some(v) => v,
        None => 0,
    }
}

}
