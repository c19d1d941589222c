//! The mode applier's decisions: which command runs the controller, and
//! what to do with the output it printed.
//!
//! The surrounding binary performs the process work. It runs the switch
//! command, hands the captured output back to [`execute_mode_switch`],
//! and acts on the returned [`SwitchOutcome`]: on `Recover` it starts
//! the controller in the background with [`background_start_command`],
//! re-applies the returned mode, and persists it; on `Apply` it persists
//! the returned mode as it is.

use vstd::prelude::*;

use crate::modes::mode_names;
use crate::text::contains_str;
use crate::text::is_space_char;
use crate::text::lemma_token_end_at;
use crate::text::spec_contains;
use crate::text::spec_tokens;
use crate::text::spec_tokens_from;

verus! {

/// What the toggle does after the controller command ran.
pub enum SwitchOutcome {
    /// The controller took the switch; persist this mode.
    Apply { mode: String },
    /// The controller was not running: start it in the background, then
    /// apply and persist this mode, overriding the requested one.
    Recover { mode: String },
}

/// The output marker by which the controller reports that its daemon is
/// not running.
pub open spec fn not_running_marker() -> Seq<char> {
    "ckb-next is not running."@
}

/// The [`not_running_marker`] text, for scanning captured output.
pub fn not_running_message() -> (m: &'static str)
    ensures
        m@ == not_running_marker(),
{
    "ckb-next is not running."
}

/// The command line that switches the controller to `mode`.
pub fn mode_switch_command(mode: &str) -> (cmd: String)
    ensures
        cmd@ == "ckb-next --mode "@ + mode@,
{
    String::from_str("ckb-next --mode ").concat(mode)
}

/// The command line that starts the controller daemon in the background.
pub fn background_start_command() -> (cmd: String)
    ensures
        cmd@ == "ckb-next -b"@,
{
    String::from_str("ckb-next -b")
}

/// The switch command for a whitespace-free, non-empty mode name splits
/// into exactly the controller binary, the mode flag, and the mode: the
/// controller is invoked as `ckb-next --mode <mode>`.
pub proof fn lemma_mode_switch_command_tokens(m: Seq<char>)
    requires
        m.len() > 0,
        forall|j: int| 0 <= j < m.len() ==> !is_space_char(m[j]),
    ensures
        spec_tokens("ckb-next --mode "@ + m) == seq!["ckb-next"@, "--mode"@, m],
{
    reveal_strlit("ckb-next --mode ");
    reveal_strlit("ckb-next");
    reveal_strlit("--mode");
    let p = "ckb-next --mode "@;
    let s = p + m;
    assert(p.len() == 16);
    assert(forall|k: int| 0 <= k < 16 ==> s[k] == p[k]);
    assert(forall|k: int| 16 <= k < s.len() ==> s[k] == m[k - 16]);
    assert(forall|k: int| 0 <= k < 8 ==> !is_space_char(s[k]));
    assert(is_space_char(s[8]));
    assert(forall|k: int| 9 <= k < 15 ==> !is_space_char(s[k]));
    assert(is_space_char(s[15]));
    assert(forall|k: int| 16 <= k < s.len() ==> !is_space_char(s[k]));
    lemma_token_end_at(s, 0, 8);
    lemma_token_end_at(s, 9, 15);
    lemma_token_end_at(s, 16, s.len() as int);
    assert(spec_tokens_from(s, 0) == seq![s.subrange(0, 8)] + spec_tokens_from(s, 8));
    assert(spec_tokens_from(s, 8) == spec_tokens_from(s, 9));
    assert(spec_tokens_from(s, 9) == seq![s.subrange(9, 15)] + spec_tokens_from(s, 15));
    assert(spec_tokens_from(s, 15) == spec_tokens_from(s, 16));
    assert(spec_tokens_from(s, 16) == seq![s.subrange(16, s.len() as int)]
        + spec_tokens_from(s, s.len() as int));
    assert(spec_tokens_from(s, s.len() as int) == Seq::<Seq<char>>::empty());
    assert(s.subrange(0, 8) =~= "ckb-next"@);
    assert(s.subrange(9, 15) =~= "--mode"@);
    assert(s.subrange(16, s.len() as int) =~= m);
    assert(spec_tokens(s) =~= seq!["ckb-next"@, "--mode"@, m]);
}

/// Decides how the run ends once the controller command has printed
/// `command_output`: when the output reports that the controller is not
/// running, recovery forces the first mode; otherwise the requested
/// `mode` stands.
pub fn execute_mode_switch(mode: &str, command_output: &str) -> (outcome: SwitchOutcome)
    ensures
        spec_contains(command_output@, not_running_marker()) ==> (outcome matches
            SwitchOutcome::Recover { mode: m } && m@ == mode_names()[0]),
        !spec_contains(command_output@, not_running_marker()) ==> (outcome matches
            SwitchOutcome::Apply { mode: m } && m@ == mode@),
{
    if contains_str(command_output, not_running_message()) {
        let recovery = handle_ckb_not_running();
        SwitchOutcome::Recover { mode: String::from_str(recovery) }
    } else {
        SwitchOutcome::Apply { mode: String::from_str(mode) }
    }
}

/// The mode that recovery falls back to when the controller was found
/// not to be running: the first of the rotation. The caller starts the
/// controller in the background and re-applies this mode in place of
/// the one it had computed.
pub fn handle_ckb_not_running() -> (recovery_mode: &'static str)
    ensures
        recovery_mode@ == mode_names()[0],
{
    "On"
}

} // verus!
