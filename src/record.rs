use vstd::prelude::*;

verus! {

/// One entry of the list: who, how guilty (conventionally 0 to 100, never
/// clamped), and why.
#[derive(Clone, Debug)]
pub struct Suspect {
    pub name: String,
    pub guilt_level: u32,
    pub reason: String,
}

impl Suspect {
    pub fn new(name: String, guilt_level: u32, reason: String) -> (r: Suspect)
        ensures
            r.name@ == name@,
            r.guilt_level == guilt_level,
            r.reason@ == reason@,
    {
        Suspect { name, guilt_level, reason }
    }
}

/// The list with the record at position `i` taken out; the others keep
/// their relative order.
pub open spec fn without_index<T>(s: Seq<T>, i: int) -> Seq<T> {
    s.subrange(0, i) + s.subrange(i + 1, s.len() as int)
}

/// Removes and returns the record at position `index`.
pub fn remove_record(list: &mut Vec<Suspect>, index: usize) -> (r: Suspect)
    requires
        index < old(list).len(),
    ensures
        r == old(list)@[index as int],
        final(list)@ == without_index(old(list)@, index as int),
{
    list.remove(index)
}

/// Appends a record at the end of the list.
pub fn append_record(list: &mut Vec<Suspect>, s: Suspect)
    ensures
        final(list)@ == old(list)@.push(s),
{
    list.push(s);
}

/// The band a guilt level falls in, as the list view shows it.
#[derive(Clone, Copy, Debug, PartialEq, Eq, Structural)]
pub enum Verdict {
    Terrorist,
    Heretic,
    Suspect,
    Neutral,
    Unknown,
}

pub open spec fn verdict_spec(level: u32) -> Verdict {
    if level == 100 {
        Verdict::Terrorist
    } else if 60 <= level <= 99 {
        Verdict::Heretic
    } else if 30 <= level <= 59 {
        Verdict::Suspect
    } else if level == 0 {
        Verdict::Neutral
    } else {
        Verdict::Unknown
    }
}

/// Classifies a guilt level: exactly 100, 60 to 99, 30 to 59, exactly 0,
/// and everything else (1 to 29, and anything above 100).
pub fn verdict_of(level: u32) -> (r: Verdict)
    ensures
        r == verdict_spec(level),
{
    if level == 100 {
        Verdict::Terrorist
    } else if 60 <= level && level <= 99 {
        Verdict::Heretic
    } else if 30 <= level && level <= 59 {
        Verdict::Suspect
    } else if level == 0 {
        Verdict::Neutral
    } else {
        Verdict::Unknown
    }
}

/// Removing the record at position `i` from a list of `n` leaves `n - 1`
/// records: those before `i` where they were, those after it one place
/// earlier, in the relative order they had.
pub proof fn lemma_remove_keeps_order<T>(s: Seq<T>, i: int)
    requires
        0 <= i < s.len(),
    ensures
        without_index(s, i).len() == s.len() - 1,
        forall|j: int| 0 <= j < i ==> #[trigger] without_index(s, i)[j] == s[j],
        forall|j: int| i <= j < s.len() - 1 ==> #[trigger] without_index(s, i)[j] == s[j + 1],
{
}

}
