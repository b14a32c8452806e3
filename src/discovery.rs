use vstd::prelude::*;
use vstd::string::*;

use crate::config::SessionConfig;

verus! {

/// A session descriptor as read from a file of the session directory.
#[derive(Clone, Debug, PartialEq, Eq)]
pub struct Descriptor {
    pub name: String,
    pub port: u16,
}

/// The host of every discovered session: the loopback address.
pub open spec fn loopback() -> Seq<char> {
    "127.0.0.1"@
}

/// Whether a file with extension `ext` is read as a session descriptor.
pub fn is_descriptor_extension(ext: &str) -> (r: bool)
    ensures
        r == (ext@ == "json"@ || ext@ == "session"@),
{
    let e = String::from_str(ext);
    e == String::from_str("json") || e == String::from_str("session")
}

/// The descriptors among the parse results `parsed`, in order; files that did
/// not parse are left out.
pub open spec fn found(parsed: Seq<Option<Descriptor>>) -> Seq<Descriptor>
    decreases parsed.len(),
{
    if parsed.len() == 0 {
        Seq::empty()
    } else {
        let rest = found(parsed.drop_last());
        match parsed.last() {
            Some(d) => rest.push(d),
            None => rest,
        }
    }
}

/// True when `c` is the configuration of the discovered session `d`.
pub open spec fn describes(c: SessionConfig, d: Descriptor) -> bool {
    c.name == d.name && c.host@ == loopback() && c.port == d.port
}

/// The configuration of a discovered session: its name and port, on the
/// loopback host.
pub fn config_of(d: &Descriptor) -> (r: SessionConfig)
    ensures
        describes(r, *d),
{
    SessionConfig { name: d.name.clone(), host: String::from_str("127.0.0.1"), port: d.port }
}

/// The sessions listed by the parse results of the descriptor files, in order:
/// one configuration per well-formed descriptor, malformed files skipped.
pub fn collect_sessions(parsed: &Vec<Option<Descriptor>>) -> (r: Vec<SessionConfig>)
    ensures
        r@.len() == found(parsed@).len(),
        forall|i: int|
            0 <= i < r@.len() ==> describes(#[trigger] r@[i], found(parsed@)[i]),
{
    let mut out: Vec<SessionConfig> = Vec::new();
    let mut i: usize = 0;
    while i < parsed.len()
        invariant
            i <= parsed@.len(),
            out@.len() == found(parsed@.subrange(0, i as int)).len(),
            forall|j: int|
                0 <= j < out@.len() ==> describes(
                    #[trigger] out@[j],
                    found(parsed@.subrange(0, i as int))[j],
                ),
        decreases parsed@.len() - i,
    {
        let ghost before = parsed@.subrange(0, i as int);
        let ghost after = parsed@.subrange(0, i + 1);
        assert(after.drop_last() =~= before);
        assert(after.last() == parsed@[i as int]);
        let ghost prev = out@;
        match &parsed[i] {
            Some(d) => {
                out.push(config_of(d));
                assert(found(after) == found(before).push(*d));
                assert forall|j: int| 0 <= j < out@.len() implies describes(
                    #[trigger] out@[j],
                    found(after)[j],
                ) by {
                    if j < prev.len() {
                        assert(out@[j] == prev[j]);
                    } else {
                        assert(found(after)[j] == *d);
                    }
                }
            },
            None => {
                assert(found(after) == found(before));
                assert forall|j: int| 0 <= j < out@.len() implies describes(
                    #[trigger] out@[j],
                    found(after)[j],
                ) by {
                    assert(out@[j] == prev[j]);
                }
            },
        }
        i = i + 1;
    }
    assert(parsed@.subrange(0, parsed@.len() as int) =~= parsed@);
    out
}

/// Where the debug log is written.
#[derive(Clone, Copy, Debug, PartialEq, Eq)]
pub enum LogTarget {
    /// The profile's desktop.
    Desktop,
    /// The desktop kept under the profile's OneDrive folder.
    OneDriveDesktop,
    /// The profile directory itself.
    ProfileRoot,
}

/// The directory the debug log goes to: the desktop if there is one, else the
/// OneDrive desktop if there is one, else the profile directory.
pub fn choose_log_target(desktop_exists: bool, onedrive_desktop_exists: bool) -> (r: LogTarget)
    ensures
        desktop_exists ==> r == LogTarget::Desktop,
        !desktop_exists && onedrive_desktop_exists ==> r == LogTarget::OneDriveDesktop,
        !desktop_exists && !onedrive_desktop_exists ==> r == LogTarget::ProfileRoot,
{
    if desktop_exists {
        LogTarget::Desktop
    } else if onedrive_desktop_exists {
        LogTarget::OneDriveDesktop
    } else {
        LogTarget::ProfileRoot
    }
}

} // verus!
