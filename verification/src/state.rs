//! Where the daemon keeps its state, and how it reads the small state files:
//! the namespace of a configuration directory, the active-preset marker and
//! the directory identity record.

use vstd::prelude::*;
use crate::text::{chars_of, decimal, push_decimal, string_of, trim, trim_bounds};

verus! {

/// The SHA-256 digest of the UTF-8 bytes of `text`, as lowercase
/// hexadecimal.
pub uninterp spec fn sha256_text(text: Seq<char>) -> Seq<char>;

pub open spec fn is_lower_hex(c: char) -> bool {
    ('0' <= c && c <= '9') || ('a' <= c && c <= 'f')
}

/// Calls `sha256::digest` on the text, which hex-encodes the 32 bytes of
/// the digest (`hex::encode`): 64 lowercase hexadecimal digits. The digits
/// are named, not stated.
#[verifier::external_body]
fn sha256_hex(text: &str) -> (r: String)
    ensures
        r@ == sha256_text(text@),
        r@.len() == 64,
        forall|i: int| 0 <= i < 64 ==> is_lower_hex(#[trigger] r@[i]),
{
    sha256::digest(text)
}

/// The namespace of a custom configuration directory: `custom_` and the
/// first 16 hexadecimal digits of the digest of its canonical path.
pub open spec fn spec_state_namespace(canonical_path: Seq<char>) -> Seq<char> {
    "custom_"@ + sha256_text(canonical_path).take(16)
}

pub fn get_state_namespace(canonical_path: &str) -> (s: String)
    ensures
        s@ == spec_state_namespace(canonical_path@),
        s@.len() == 23,
{
    let hash = sha256_hex(canonical_path);
    let digits = chars_of(hash.as_str());
    let head = string_of(&digits, 0, 16);
    let mut s = String::from_str("custom_");
    proof {
        reveal_strlit("custom_");
    }
    s.append(head.as_str());
    s
}

/// The state namespace of a configuration: `default` for the default
/// directory (or none given), else that of the custom directory, given by
/// its canonical path.
pub fn state_namespace(custom_canonical_path: Option<&str>) -> (s: String)
    ensures
        s@ == match custom_canonical_path {
            None => "default"@,
            Some(p) => spec_state_namespace(p@),
        },
{
    proof {
        reveal_strlit("default");
    }
    match custom_canonical_path {
        None => String::from_str("default"),
        Some(p) => get_state_namespace(p),
    }
}

/// The preset an active-preset marker names: its trimmed text, None when
/// that is empty.
pub open spec fn spec_marker_preset(content: Seq<char>) -> Option<Seq<char>> {
    if trim(content).len() == 0 {
        None
    } else {
        Some(trim(content))
    }
}

pub fn marker_preset(content: &str) -> (r: Option<String>)
    ensures
        r.deep_view() == spec_marker_preset(content@),
{
    let chars = chars_of(content);
    let (a, b) = trim_bounds(&chars);
    if a == b {
        None
    } else {
        Some(string_of(&chars, a, b))
    }
}

/// Whether a directory identity record still matches the directory: its
/// trimmed text is the directory's inode number.
pub open spec fn spec_identity_matches(stored: Seq<char>, inode: u64) -> bool {
    trim(stored) == decimal(inode as nat)
}

pub fn identity_matches(stored: &str, inode: u64) -> (b: bool)
    ensures
        b == spec_identity_matches(stored@, inode),
{
    let chars = chars_of(stored);
    let (a, e) = trim_bounds(&chars);
    let mut id = String::new();
    push_decimal(&mut id, inode);
    let want = chars_of(id.as_str());
    if e - a != want.len() {
        proof {
            assert(trim(stored@).len() != decimal(inode as nat).len());
        }
        return false;
    }
    let mut i: usize = 0;
    while i < want.len()
        invariant
            a <= e <= chars@.len(),
            e - a == want@.len(),
            want@ == decimal(inode as nat),
            i <= want@.len(),
            chars@.subrange(a as int, e as int) == trim(stored@),
            forall|k: int| 0 <= k < i ==> chars@[a + k] == want@[k],
        decreases want@.len() - i,
    {
        if chars[a + i] != want[i] {
            proof {
                assert(trim(stored@)[i as int] != decimal(inode as nat)[i as int]);
            }
            return false;
        }
        i = i + 1;
    }
    proof {
        assert(trim(stored@) =~= decimal(inode as nat));
    }
    true
}

/// The text of a directory identity record: the inode number.
pub fn identity_record(inode: u64) -> (s: String)
    ensures
        s@ == decimal(inode as nat),
{
    let mut s = String::new();
    push_decimal(&mut s, inode);
    s
}

/// How long a state directory may stay untouched before it is removed, in
/// seconds: 90 days.
pub const ORPHAN_AGE_SECS: u64 = 7_776_000;

/// Whether a state directory last modified at `modified_secs` (seconds
/// since the Unix epoch) is orphaned at `now_secs`: modified before the
/// moment 90 days back (the epoch, when that lies before it).
pub fn is_orphaned(modified_secs: u64, now_secs: u64) -> (b: bool)
    ensures
        b == (modified_secs < (if now_secs >= ORPHAN_AGE_SECS { now_secs - ORPHAN_AGE_SECS } else { 0 })),
{
    let cutoff = if now_secs >= ORPHAN_AGE_SECS { now_secs - ORPHAN_AGE_SECS } else { 0 };
    modified_secs < cutoff
}

/// An identity record that was written for a directory matches it when it
/// is read back.
pub proof fn lemma_identity_round_trip(inode: u64)
    ensures
        spec_identity_matches(decimal(inode as nat), inode),
{
    crate::text::lemma_decimal_digits(inode as nat);
    crate::text::lemma_trim_identity(decimal(inode as nat));
}

/// A custom directory never shares the default namespace.
pub proof fn lemma_custom_namespace_distinct(p: Seq<char>)
    ensures
        spec_state_namespace(p) != "default"@,
{
    reveal_strlit("default");
    reveal_strlit("custom_");
    assert(spec_state_namespace(p)[0] == 'c');
    assert("default"@[0] == 'd');
}

} // verus!
