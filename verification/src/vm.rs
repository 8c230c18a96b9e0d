//! Interpretation of what `virsh` reports about the virtual machine.

use vstd::prelude::*;

use crate::text::{chars_equal, chars_of, lines_of, split_lines, string_from_chars, trim, trim_chars};

verus! {

/// The states of the virtual machine that the launcher acts on.
#[derive(Debug, Clone, Copy, PartialEq, Eq, Structural)]
pub enum VmState {
    Running,
    Shutoff,
    Paused,
    Other,
}

pub open spec fn running_word() -> Seq<char> {
    seq!['r', 'u', 'n', 'n', 'i', 'n', 'g']
}

pub open spec fn shut_off_word() -> Seq<char> {
    seq!['s', 'h', 'u', 't', ' ', 'o', 'f', 'f']
}

pub open spec fn paused_word() -> Seq<char> {
    seq!['p', 'a', 'u', 's', 'e', 'd']
}

/// The state that `virsh domstate` output `raw` names: the trimmed output
/// must be exactly `running`, `shut off` or `paused`; anything else —
/// `in shutdown`, `pmsuspended`, `crashed`, `idle`, or the empty output of a
/// domain that does not exist — is `Other`.
pub open spec fn spec_parse_state(raw: Seq<char>) -> VmState {
    let t = trim(raw);
    if t == running_word() {
        VmState::Running
    } else if t == shut_off_word() {
        VmState::Shutoff
    } else if t == paused_word() {
        VmState::Paused
    } else {
        VmState::Other
    }
}

/// Parse `virsh domstate` output into a [`VmState`].
///
/// Any state virsh reports that we don't model explicitly — `in shutdown`,
/// `pmsuspended`, `crashed`, `idle` — becomes [`VmState::Other`], as does the
/// empty output virsh produces when the domain doesn't exist.
pub fn parse_state(raw: &str) -> (state: VmState)
    ensures
        state == spec_parse_state(raw@),
        state == VmState::Running <==> trim(raw@) == running_word(),
        state == VmState::Shutoff <==> trim(raw@) == shut_off_word(),
        state == VmState::Paused <==> trim(raw@) == paused_word(),
{
    let chars = chars_of(raw);
    let t = trim_chars(&chars);
    let running: [char; 7] = ['r', 'u', 'n', 'n', 'i', 'n', 'g'];
    let shut_off: [char; 8] = ['s', 'h', 'u', 't', ' ', 'o', 'f', 'f'];
    let paused: [char; 6] = ['p', 'a', 'u', 's', 'e', 'd'];
    assert(running@ =~= running_word());
    assert(shut_off@ =~= shut_off_word());
    assert(paused@ =~= paused_word());
    if chars_equal(&t, &running) {
        VmState::Running
    } else if chars_equal(&t, &shut_off) {
        VmState::Shutoff
    } else if chars_equal(&t, &paused) {
        VmState::Paused
    } else {
        VmState::Other
    }
}

/// Each state the launcher acts on is named by exactly one word, and only
/// output that trims to that word reports it; everything else is `Other`.
pub proof fn lemma_state_words(raw: Seq<char>)
    ensures
        spec_parse_state(raw) == VmState::Running <==> trim(raw) == running_word(),
        spec_parse_state(raw) == VmState::Shutoff <==> trim(raw) == shut_off_word(),
        spec_parse_state(raw) == VmState::Paused <==> trim(raw) == paused_word(),
        spec_parse_state(raw) == VmState::Other <==> (trim(raw) != running_word() && trim(raw)
            != shut_off_word() && trim(raw) != paused_word()),
{
    assert(running_word()[0] != shut_off_word()[0]);
    assert(running_word()[0] != paused_word()[0]);
    assert(shut_off_word()[0] != paused_word()[0]);
}

/// Blank output — what virsh prints for a domain that does not exist — is
/// never taken for a state the launcher acts on, in particular not for
/// "shut off".
pub proof fn lemma_blank_output_is_other(raw: Seq<char>)
    requires
        trim(raw).len() == 0,
    ensures
        spec_parse_state(raw) == VmState::Other,
{
}

/// The first of `lines` that is not blank, trimmed.
pub open spec fn first_nonblank(lines: Seq<Seq<char>>) -> Option<Seq<char>>
    decreases lines.len(),
{
    if lines.len() == 0 {
        None
    } else {
        match first_nonblank(lines.drop_last()) {
            Some(found) => Some(found),
            None => if trim(lines.last()).len() > 0 {
                Some(trim(lines.last()))
            } else {
                None
            },
        }
    }
}

/// The display URI in `virsh domdisplay` output `raw`: its first non-blank
/// line, trimmed. A domain with several graphics devices prints one URI per
/// line; blank output (a booting VM) has none.
pub open spec fn spec_parse_display_uri(raw: Seq<char>) -> Option<Seq<char>> {
    first_nonblank(split_lines(raw))
}

/// What `first_nonblank` finds is never empty.
pub proof fn lemma_first_nonblank_nonempty(lines: Seq<Seq<char>>)
    ensures
        first_nonblank(lines) matches Some(found) ==> found.len() > 0,
    decreases lines.len(),
{
    if lines.len() > 0 {
        lemma_first_nonblank_nonempty(lines.drop_last());
    }
}

/// Parse `virsh domdisplay` output into a display URI.
///
/// A domain with more than one graphics device makes virsh print one URI per
/// line, so we take the first non-empty line rather than trimming the whole
/// blob — joining them would produce a single unusable URI.
pub fn parse_display_uri(raw: &str) -> (uri: Option<String>)
    ensures
        uri is None <==> spec_parse_display_uri(raw@) is None,
        uri matches Some(u) ==> spec_parse_display_uri(raw@) == Some(u@) && u@.len() > 0,
{
    let lines = lines_of(raw);
    let ghost all = split_lines(raw@);
    let mut found: Option<Vec<char>> = None;
    let mut k: usize = 0;
    assert(all.take(0) =~= Seq::<Seq<char>>::empty());
    while k < lines.len()
        invariant
            k <= lines@.len(),
            lines@.len() == all.len(),
            forall|j: int| 0 <= j < lines@.len() ==> #[trigger] lines@[j]@ == all[j],
            found is None <==> first_nonblank(all.take(k as int)) is None,
            found matches Some(f) ==> first_nonblank(all.take(k as int)) == Some(f@),
        decreases lines@.len() - k,
    {
        if found.is_none() {
            let t = trim_chars(&lines[k]);
            if t.len() > 0 {
                found = Some(t);
            }
        }
        assert(all.take(k + 1).drop_last() =~= all.take(k as int));
        assert(lines@[k as int]@ == all.take(k + 1).last());
        k += 1;
    }
    proof {
        assert(all.take(all.len() as int) =~= all);
        lemma_first_nonblank_nonempty(all);
    }
    match found {
        Some(f) => Some(string_from_chars(&f)),
        None => None,
    }
}

/// What starting the VM comes to, given its current state.
#[derive(Debug, Clone, Copy, PartialEq, Eq, Structural)]
pub enum StartAction {
    /// The VM is already running: nothing to do.
    AlreadyRunning,
    /// Ask libvirt to start the VM.
    Start,
}

/// Starting the VM is a no-op when it already runs; in any other state it is
/// started.
pub fn start_action(state: VmState) -> (action: StartAction)
    ensures
        action == (if state == VmState::Running {
            StartAction::AlreadyRunning
        } else {
            StartAction::Start
        }),
{
    match state {
        VmState::Running => StartAction::AlreadyRunning,
        _ => StartAction::Start,
    }
}

/// The display URI from a run of `virsh domdisplay`: none when the command
/// failed (the VM is not running), else what its output holds.
pub fn display_uri_from(succeeded: bool, raw: &str) -> (uri: Option<String>)
    ensures
        !succeeded ==> uri is None,
        succeeded ==> (uri is None <==> spec_parse_display_uri(raw@) is None),
        succeeded ==> (uri matches Some(u) ==> spec_parse_display_uri(raw@) == Some(u@)),
{
    if succeeded {
        parse_display_uri(raw)
    } else {
        None
    }
}

} // verus!
