//! SPICE clipboard bridge — bidirectional text clipboard between host and
//! guest.
//!
//! When the guest copies text, it arrives through the SPICE agent and is set
//! on the host clipboard. When the host copies text, the guest is told that
//! the host has text. Setting the host clipboard from the guest must not be
//! echoed back to the guest as a host change.

use vstd::prelude::*;
use vstd::utf8::{decode_utf8, valid_utf8};

use crate::spice::protocol::VD_AGENT_CLIPBOARD_UTF8_TEXT;
use crate::text::{chars_of, string_from_chars, subrange_chars};

verus! {

/// `std::str::from_utf8`, taken as an owned `String`: `Some` exactly when
/// `bytes` is well-formed UTF-8, holding the characters the bytes encode.
#[verifier::external_body]
fn utf8_to_string(bytes: &[u8]) -> (text: Option<String>)
    ensures
        text is Some <==> valid_utf8(bytes@),
        text matches Some(t) ==> t@ == decode_utf8(bytes@),
{
    match std::str::from_utf8(bytes) {
        Ok(s) => Some(s.to_string()),
        Err(_) => None,
    }
}

/// `s` without its trailing `'\0'` characters, as
/// `str::trim_end_matches('\0')` gives it.
pub open spec fn trim_trailing_nul(s: Seq<char>) -> Seq<char>
    decreases s.len(),
{
    if s.len() > 0 && s.last() == '\0' {
        trim_trailing_nul(s.drop_last())
    } else {
        s
    }
}

/// A run of `n` NUL characters.
pub open spec fn nul_run(n: nat) -> Seq<char> {
    Seq::new(n, |_i: int| '\0')
}

/// Removing the trailing NULs leaves a prefix that the removed run of NULs
/// completes, and that is empty or ends in something other than a NUL; it
/// is empty exactly when `s` is all NULs.
proof fn lemma_trim_trailing_nul(s: Seq<char>)
    ensures
        trim_trailing_nul(s).len() <= s.len(),
        s =~= trim_trailing_nul(s) + nul_run((s.len() - trim_trailing_nul(s).len()) as nat),
        trim_trailing_nul(s).len() > 0 ==> trim_trailing_nul(s).last() != '\0',
        trim_trailing_nul(s).len() == 0 <==> (forall|i: int| 0 <= i < s.len() ==> s[i] == '\0'),
    decreases s.len(),
{
    if s.len() > 0 && s.last() == '\0' {
        let rest = s.drop_last();
        lemma_trim_trailing_nul(rest);
        let t = trim_trailing_nul(rest);
        assert(trim_trailing_nul(s) == t);
        assert(s =~= rest.push('\0'));
        let k = (rest.len() - t.len()) as nat;
        assert(rest == t + nul_run(k));
        assert(nul_run(k).push('\0') =~= nul_run(k + 1));
        assert(s =~= t + nul_run(k + 1));
        if t.len() == 0 {
            assert forall|i: int| 0 <= i < s.len() implies s[i] == '\0' by {
                if i < rest.len() {
                    assert(rest[i] == s[i]);
                }
            }
        } else {
            assert(!(forall|i: int| 0 <= i < rest.len() ==> rest[i] == '\0'));
            let j = choose|j: int| 0 <= j < rest.len() && rest[j] != '\0';
            assert(s[j] != '\0');
        }
    } else if s.len() > 0 {
        assert(s[s.len() - 1] != '\0');
        assert(s + nul_run(0) =~= s);
    } else {
        assert(s + nul_run(0) =~= s);
    }
}

/// What guest clipboard data puts on the host clipboard is the decoded text
/// with exactly its trailing NULs taken off: followed by some run of NULs it
/// gives the decoded data back, and it ends in something other than a NUL.
/// There is such a text exactly when the data is well-formed UTF-8 text that
/// holds a character other than NUL.
pub proof fn lemma_guest_text_strips_only_nuls(data_type: u32, data: Seq<u8>)
    ensures
        spec_guest_text(data_type, data) matches Some(t) ==> (exists|n: nat|
            decode_utf8(data) == t + #[trigger] nul_run(n)) && t.len() > 0 && t.last() != '\0',
        spec_guest_text(data_type, data) is Some <==> (data_type == VD_AGENT_CLIPBOARD_UTF8_TEXT
            && valid_utf8(data) && exists|i: int|
            0 <= i < decode_utf8(data).len() && decode_utf8(data)[i] != '\0'),
{
    if data_type == VD_AGENT_CLIPBOARD_UTF8_TEXT && valid_utf8(data) {
        let s = decode_utf8(data);
        lemma_trim_trailing_nul(s);
        let t = trim_trailing_nul(s);
        let n = (s.len() - t.len()) as nat;
        assert(s == t + nul_run(n));
        if data.len() == 0 {
            assert(decode_utf8(data).len() == 0);
        }
    }
}

/// The text that guest clipboard data of type `data_type` puts on the host
/// clipboard: only UTF-8 text of at least one byte that is well-formed, with
/// its trailing NULs removed, and only when something is left.
pub open spec fn spec_guest_text(data_type: u32, data: Seq<u8>) -> Option<Seq<char>> {
    if data_type == VD_AGENT_CLIPBOARD_UTF8_TEXT && data.len() > 0 && valid_utf8(data) {
        let text = trim_trailing_nul(decode_utf8(data));
        if text.len() > 0 {
            Some(text)
        } else {
            None
        }
    } else {
        None
    }
}

/// Whether a host clipboard change seen in state `bridge` is passed on to
/// the guest.
pub open spec fn host_change_notifies(bridge: ClipboardBridge) -> bool {
    !bridge.ignores_next_host_change()
}

/// The state of the clipboard bridge.
pub struct ClipboardBridge {
    /// Set when the host clipboard is about to be changed by the bridge
    /// itself, to avoid a feedback loop.
    ignore_next_host_change: bool,
}

impl ClipboardBridge {
    /// Whether the next host clipboard change is the bridge's own.
    pub closed spec fn ignores_next_host_change(self) -> bool {
        self.ignore_next_host_change
    }

    /// A bridge that passes the first host change on.
    pub fn new() -> (bridge: ClipboardBridge)
        ensures
            !bridge.ignores_next_host_change(),
    {
        ClipboardBridge { ignore_next_host_change: false }
    }

    /// The host clipboard changed: whether to tell the guest that the host
    /// has UTF-8 text. A change the bridge made itself is passed over once.
    pub fn on_host_change(&mut self) -> (notify_guest: bool)
        ensures
            notify_guest == host_change_notifies(*old(self)),
            !final(self).ignores_next_host_change(),
    {
        let ignore = self.ignore_next_host_change;
        self.ignore_next_host_change = false;
        !ignore
    }

    /// The guest sent clipboard data: the text to set on the host clipboard,
    /// if any; the host change that setting it causes is then passed over.
    pub fn on_guest_data(&mut self, data_type: u32, data: &[u8]) -> (text: Option<String>)
        ensures
            text is Some <==> spec_guest_text(data_type, data@) is Some,
            text matches Some(t) ==> spec_guest_text(data_type, data@) == Some(t@),
            text matches Some(t) ==> (exists|n: nat| decode_utf8(data@) == t@ + #[trigger] nul_run(n))
                && t@.len() > 0 && t@.last() != '\0',
            text is Some <==> (data_type == VD_AGENT_CLIPBOARD_UTF8_TEXT && valid_utf8(data@)
                && exists|i: int|
                0 <= i < decode_utf8(data@).len() && decode_utf8(data@)[i] != '\0'),
            final(self).ignores_next_host_change() == (old(self).ignores_next_host_change()
                || text is Some),
    {
        proof {
            lemma_guest_text_strips_only_nuls(data_type, data@);
        }
        if data_type != VD_AGENT_CLIPBOARD_UTF8_TEXT || data.len() == 0 {
            return None;
        }
        let decoded = match utf8_to_string(data) {
            Some(decoded) => decoded,
            None => return None,
        };
        let chars = chars_of(decoded.as_str());
        let mut end = chars.len();
        assert(chars@.take(end as int) =~= chars@);
        while end > 0 && chars[end - 1] == '\0'
            invariant
                end <= chars@.len(),
                trim_trailing_nul(chars@) == trim_trailing_nul(chars@.take(end as int)),
            decreases end,
        {
            assert(chars@.take(end as int).drop_last() =~= chars@.take(end - 1));
            end -= 1;
        }
        if end == 0 {
            return None;
        }
        let kept = subrange_chars(&chars, 0, end);
        assert(kept@ =~= chars@.take(end as int));
        self.ignore_next_host_change = true;
        Some(string_from_chars(&kept))
    }
}

/// Whether a guest request for host clipboard data of type `data_type` is
/// served: only UTF-8 text is.
pub fn serves_request(data_type: u32) -> (serve: bool)
    ensures
        serve == (data_type == VD_AGENT_CLIPBOARD_UTF8_TEXT),
{
    data_type == VD_AGENT_CLIPBOARD_UTF8_TEXT
}

/// Whether the clipboard types a guest offers include UTF-8 text, which is
/// the only type requested from it.
pub fn offers_utf8_text(types: &[u32]) -> (offered: bool)
    ensures
        offered == types@.contains(VD_AGENT_CLIPBOARD_UTF8_TEXT),
{
    let mut k: usize = 0;
    while k < types.len()
        invariant
            k <= types@.len(),
            forall|m: int| 0 <= m < k ==> types@[m] != VD_AGENT_CLIPBOARD_UTF8_TEXT,
        decreases types@.len() - k,
    {
        if types[k] == VD_AGENT_CLIPBOARD_UTF8_TEXT {
            assert(types@[k as int] == VD_AGENT_CLIPBOARD_UTF8_TEXT);
            return true;
        }
        k += 1;
    }
    false
}

/// Text the bridge put on the host clipboard is not echoed back to the
/// guest: once guest data has set the host clipboard, the next host change
/// is passed over, and the change after that one is passed on again.
pub proof fn lemma_own_change_not_echoed(
    before: ClipboardBridge,
    after_data: ClipboardBridge,
    after_first_change: ClipboardBridge,
    data_type: u32,
    data: Seq<u8>,
)
    requires
        spec_guest_text(data_type, data) is Some,
        after_data.ignores_next_host_change() == (before.ignores_next_host_change()
            || spec_guest_text(data_type, data) is Some),
        !after_first_change.ignores_next_host_change(),
    ensures
        !host_change_notifies(after_data),
        host_change_notifies(after_first_change),
{
}

} // verus!
