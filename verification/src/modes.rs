//! The mode rotation: the three recognized lighting modes and the fixed
//! cyclic order `On -> Keyboard -> Off -> On` that each run advances.

use vstd::prelude::*;

use crate::text::is_space_char;
use crate::text::lemma_trim_untouched;
use crate::text::spec_trim;
use crate::text::str_eq;
use crate::text::trim_str;

verus! {

/// The recognized mode names, in rotation order.
pub open spec fn mode_names() -> Seq<Seq<char>> {
    seq!["On"@, "Keyboard"@, "Off"@]
}

/// The mode that follows `m` in the rotation. An unrecognized value,
/// the empty string included, yields the first mode.
pub open spec fn spec_next_mode(m: Seq<char>) -> Seq<char> {
    if m == "On"@ {
        "Keyboard"@
    } else if m == "Keyboard"@ {
        "Off"@
    } else {
        "On"@
    }
}

/// Returns the mode to switch to, given the mode loaded from the state
/// file: the next one in the fixed rotation, or the first mode when the
/// current value is unrecognized.
pub fn get_next_mode(current_mode: &str) -> (next: &str)
    ensures
        next@ == spec_next_mode(current_mode@),
{
    if str_eq(current_mode, "On") {
        "Keyboard"
    } else if str_eq(current_mode, "Keyboard") {
        "Off"
    } else {
        "On"
    }
}

/// Turns the raw result of reading the state file into the last-used
/// mode: the trimmed file contents, or the empty string when the file
/// was missing or unreadable. `None` stands for a failed read.
pub fn read_last_mode(contents: Option<&str>) -> (mode: String)
    ensures
        (contents matches Some(c) ==> mode@ == spec_trim(c@)),
        (contents is None ==> mode@ == Seq::<char>::empty()),
{
    match contents {
        Some(c) => trim_str(c),
        None => String::new(),
    }
}

/// The three mode names are pairwise distinct.
proof fn lemma_mode_names_distinct()
    ensures
        "On"@ != "Keyboard"@,
        "Keyboard"@ != "Off"@,
        "On"@ != "Off"@,
{
    reveal_strlit("On");
    reveal_strlit("Keyboard");
    reveal_strlit("Off");
    assert("On"@.len() == 2);
    assert("Keyboard"@.len() == 8);
    assert("Off"@.len() == 3);
}

/// For every recognized mode, the next mode is the one that stands one
/// position later in the rotation, wrapping from the last back to the
/// first.
pub proof fn lemma_next_mode_cycles(i: int)
    requires
        0 <= i < mode_names().len(),
    ensures
        spec_next_mode(mode_names()[i]) == mode_names()[(i + 1) % (mode_names().len() as int)],
{
    lemma_mode_names_distinct();
    if i == 0 {
        assert(spec_next_mode(mode_names()[0]) == mode_names()[1]);
        assert((0int + 1) % (mode_names().len() as int) == 1);
    } else if i == 1 {
        assert(spec_next_mode(mode_names()[1]) == mode_names()[2]);
        assert((1int + 1) % (mode_names().len() as int) == 2);
    } else {
        assert(spec_next_mode(mode_names()[2]) == mode_names()[0]);
        assert((2int + 1) % (mode_names().len() as int) == 0);
    }
}

/// Every unrecognized value, the empty string included, advances to the
/// first mode.
pub proof fn lemma_next_mode_default(m: Seq<char>)
    requires
        !mode_names().contains(m),
    ensures
        spec_next_mode(m) == mode_names()[0],
{
    assert(mode_names()[0] == "On"@);
    assert(mode_names()[1] == "Keyboard"@);
}

/// Saving then loading returns the mode unchanged: the state saver writes
/// the exact mode name, the state loader trims what it reads, and no
/// recognized mode name carries surrounding whitespace.
pub proof fn lemma_save_load_round_trip(i: int)
    requires
        0 <= i < mode_names().len(),
    ensures
        spec_trim(mode_names()[i]) == mode_names()[i],
{
    reveal_strlit("On");
    reveal_strlit("Keyboard");
    reveal_strlit("Off");
    let m = mode_names()[i];
    assert(m.len() > 0 && !is_space_char(m[0]) && !is_space_char(m[m.len() - 1]));
    lemma_trim_untouched(m);
}

} // verus!
