use vstd::prelude::*;
use crate::text::{concat, join, join_strings, split, split_str, splitn, splitn_chars, to_chars, trim, trim_str};

verus! {

/// What the library reads of a Kubernetes `Status` object: its outcome and
/// its message.
pub struct ApiStatus {
    pub status: Option<String>,
    pub message: Option<String>,
}

/// A status turned into an error report: a headline, and the raw message
/// shown segment by segment under it.
pub struct StatusReport {
    pub headline: String,
    pub raw: String,
}

/// Whether the outcome reads `Success`.
pub open spec fn status_succeeded(status: Option<String>) -> bool {
    status matches Some(s) && s@ == "Success"@
}

/// The message, or `unknown status` where there is none.
pub open spec fn message_or_unknown(message: Option<String>) -> Seq<char> {
    match message {
        Some(m) => m@,
        None => "unknown status"@,
    }
}

/// The segments of a message: split at `:` into at most eight pieces.
pub open spec fn message_segments(msg: Seq<char>) -> Seq<Seq<char>> {
    splitn(msg, 8, ':')
}

/// The line for segment `i` of `n`: the first is shown as it is, the last
/// behind `└─ ` and the others behind `├─ `, each trimmed.
pub open spec fn raw_line(i: int, n: int, seg: Seq<char>) -> Seq<char> {
    if i == 0 {
        trim(seg)
    } else if i == n - 1 {
        "└─ "@ + trim(seg)
    } else {
        "├─ "@ + trim(seg)
    }
}

/// The lines of all segments.
pub open spec fn raw_lines(segs: Seq<Seq<char>>) -> Seq<Seq<char>> {
    Seq::new(segs.len(), |i: int| raw_line(i, segs.len() as int, segs[i]))
}

/// The report made of a message.
pub open spec fn report_headline(msg: Seq<char>) -> Seq<char> {
    trim(message_segments(msg).last())
}

pub open spec fn report_raw(msg: Seq<char>) -> Seq<char> {
    join(raw_lines(message_segments(msg)), "\n"@)
}

proof fn lemma_splitn_nonempty(s: Seq<char>, n: nat, sep: char)
    ensures
        splitn(s, n, sep).len() >= 1,
    decreases n,
{
    if n > 1 {
        let i = crate::text::first_index(s, sep);
        if i >= 0 {
            lemma_splitn_nonempty(s.skip(i + 1), (n - 1) as nat, sep);
        }
    }
}

/// Reading a Kubernetes status.
pub trait StatusExt {
    fn is_success(&self) -> bool;

    fn into_report(self) -> StatusReport;
}

impl StatusExt for ApiStatus {
    /// Whether the status reads `Success`.
    fn is_success(&self) -> (b: bool)
        ensures
            b == status_succeeded(self.status),
    {
        match &self.status {
            Some(s) => crate::text::same_text(s.as_str(), "Success"),
            None => false,
        }
    }

    /// The report of a failed status: its headline is the last segment of
    /// the message, and the raw part shows every segment on a line.
    fn into_report(self) -> (r: StatusReport)
        ensures
            r.headline@ == report_headline(message_or_unknown(self.message)),
            r.raw@ == report_raw(message_or_unknown(self.message)),
    {
        let msg = match self.message {
            Some(m) => m,
            None => "unknown status".to_string(),
        };
        let v = to_chars(msg.as_str());
        let segs = splitn_chars(&v, 8, ':');
        let ghost ds = segs@.map_values(|p: String| p@);
        proof {
            lemma_splitn_nonempty(v@, 8, ':');
        }
        let n = segs.len();
        let headline = trim_str(segs[n - 1].as_str());
        let mut lines: Vec<String> = Vec::new();
        let mut i: usize = 0;
        while i < n
            invariant
                i <= n == segs.len(),
                ds == segs@.map_values(|p: String| p@),
                ds == message_segments(msg@),
                lines@.len() == i,
                forall|k: int| 0 <= k < i ==> #[trigger] lines@[k]@ == raw_line(k, n as int, ds[k]),
            decreases n - i,
        {
            let t = trim_str(segs[i].as_str());
            let line = if i == 0 {
                t
            } else if i == n - 1 {
                concat("└─ ", t.as_str())
            } else {
                concat("├─ ", t.as_str())
            };
            lines.push(line);
            i = i + 1;
        }
        assert(lines@.map_values(|p: String| p@) =~= raw_lines(ds));
        let raw = join_strings(&lines, "\n");
        StatusReport { headline, raw }
    }
}

/// A failed status carried as an error.
pub struct StatusError {
    pub inner: ApiStatus,
}

/// The message's segments at every `:`, each trimmed, one per line.
pub open spec fn error_lines(msg: Seq<char>) -> Seq<char> {
    join(split(msg, ':').map_values(|p: Seq<char>| trim(p)), "\n"@)
}

impl StatusError {
    pub fn new(inner: ApiStatus) -> (e: StatusError)
        ensures
            e.inner == inner,
    {
        StatusError { inner }
    }

    /// How the error reads where the status has a message: its segments at
    /// every `:`, trimmed, one per line. Without a message there is nothing
    /// of the library's to show, and `None` comes back.
    pub fn to_text(&self) -> (r: Option<String>)
        ensures
            match self.inner.message {
                Some(m) => r matches Some(t) && t@ == error_lines(m@),
                None => r is None,
            },
    {
        match &self.inner.message {
            None => None,
            Some(m) => {
                let parts = split_str(m.as_str(), ':');
                let ghost dp = parts@.map_values(|p: String| p@);
                let mut lines: Vec<String> = Vec::new();
                let mut i: usize = 0;
                while i < parts.len()
                    invariant
                        i <= parts.len(),
                        dp == parts@.map_values(|p: String| p@),
                        dp == split(m@, ':'),
                        lines@.len() == i,
                        forall|k: int| 0 <= k < i ==> #[trigger] lines@[k]@ == trim(dp[k]),
                    decreases parts.len() - i,
                {
                    lines.push(trim_str(parts[i].as_str()));
                    i = i + 1;
                }
                assert(lines@.map_values(|p: String| p@) =~= dp.map_values(|p: Seq<char>| trim(p)));
                Some(join_strings(&lines, "\n"))
            },
        }
    }
}

} // verus!
