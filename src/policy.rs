use vstd::prelude::*;
use vstd::string::StringExecFns;

verus! {

/// What the index holds for a path, compared with a record of that path.
#[derive(Clone, Copy, Debug, PartialEq, Eq, Structural)]
pub enum ChangeStatus {
    /// No fingerprint is stored for the path: it must be fingerprinted.
    Unseen,
    /// A fingerprint is stored and the stored watermark equals the record's.
    Unchanged,
    /// A fingerprint is stored but the watermarks differ: it must be fingerprinted again.
    Stale,
}

/// The classification, from what the store returned for the path.
pub open spec fn classify_spec(
    stored_fingerprint: Option<u32>,
    stored_time: Option<Seq<char>>,
    current_time: Seq<char>,
) -> ChangeStatus {
    if stored_fingerprint is None {
        ChangeStatus::Unseen
    } else if stored_time == Some(current_time) {
        ChangeStatus::Unchanged
    } else {
        ChangeStatus::Stale
    }
}

/// A path log after `path` was appended: the path alone when there was no log,
/// else the old log, a newline, and the path.
pub open spec fn appended_log(old_log: Option<Seq<char>>, path: Seq<char>) -> Seq<char> {
    match old_log {
        Some(l) => l + seq!['\n'] + path,
        None => path,
    }
}

pub open spec fn text_view(t: Option<String>) -> Option<Seq<char>> {
    match t {
        Some(s) => Some(s@),
        None => None,
    }
}

/// Decides whether a path must be fingerprinted. Timestamps are compared for
/// equality of their text, not by order: any change calls for a recompute.
pub fn classify(
    stored_fingerprint: Option<u32>,
    stored_time: &Option<String>,
    current_time: &String,
) -> (r: ChangeStatus)
    ensures
        r == classify_spec(stored_fingerprint, text_view(*stored_time), current_time@),
{
    if stored_fingerprint.is_none() {
        return ChangeStatus::Unseen;
    }
    match stored_time {
        Some(t) => {
            if t.eq(current_time) {
                ChangeStatus::Unchanged
            } else {
                ChangeStatus::Stale
            }
        },
        None => ChangeStatus::Stale,
    }
}

/// Whether a record of the given status calls for the fingerprint engine.
pub fn needs_fingerprint(status: ChangeStatus) -> (r: bool)
    ensures
        r == (status != ChangeStatus::Unchanged),
{
    match status {
        ChangeStatus::Unchanged => false,
        _ => true,
    }
}

/// Appends `path` to a newline-delimited path log (absent means empty).
/// Earlier entries are kept as they are: the log is a history.
pub fn append_log(old_log: Option<String>, path: &str) -> (r: String)
    ensures
        r@ == appended_log(text_view(old_log), path@),
{
    match old_log {
        Some(l) => {
            let mut log = l;
            proof {
                reveal_strlit("\n");
            }
            log.append("\n");
            log.append(path);
            log
        },
        None => String::from_str(path),
    }
}

} // verus!
