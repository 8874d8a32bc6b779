use vstd::prelude::*;

use crate::error::{DepotError, DepotResult};
use crate::text::{chars_of, segment_is};

verus! {

/// The operating systems whose default package manager is known.
#[derive(Debug, Clone, Copy, PartialEq, Eq, Structural, Hash)]
pub enum OperatingSystem {
    Arch,
    Alpine,
    Debian,
    Ubuntu,
    Fedora,
}

/// Whether a line of `s` starts at `i`.
pub open spec fn is_line_start(s: Seq<char>, i: int) -> bool {
    0 <= i < s.len() && (i == 0 || s[i - 1] == '\n')
}

/// Whether `ID=` stands at `i`.
pub open spec fn has_id_key(s: Seq<char>, i: int) -> bool {
    0 <= i && i + 3 <= s.len() && s.subrange(i, i + 3) == "ID="@
}

/// Where the first line at or after `i` that starts with `ID=` starts.
pub open spec fn id_line_from(s: Seq<char>, i: int) -> Option<int>
    decreases s.len() - i,
{
    if i < 0 || i >= s.len() {
        None
    } else if is_line_start(s, i) && has_id_key(s, i) {
        Some(i)
    } else {
        id_line_from(s, i + 1)
    }
}

/// Where the line that holds `i` ends: at the next newline, or at the end.
pub open spec fn line_end(s: Seq<char>, i: int) -> int
    decreases s.len() - i,
{
    if i < 0 || i >= s.len() {
        s.len() as int
    } else if s[i] == '\n' {
        i
    } else {
        line_end(s, i + 1)
    }
}

/// The value of the first `ID=` line of a host identification file.
pub open spec fn id_value(s: Seq<char>) -> Option<Seq<char>> {
    match id_line_from(s, 0) {
        Some(i) => Some(s.subrange(i + 3, line_end(s, i))),
        None => None,
    }
}

/// The operating system that an identification file describes.
pub open spec fn detect(s: Seq<char>) -> Option<OperatingSystem> {
    match id_value(s) {
        Some(v) => OperatingSystem::from_id_spec(v),
        None => None,
    }
}

impl OperatingSystem {
    /// The `ID=` value that names this operating system.
    pub open spec fn id_spec(self) -> Seq<char> {
        match self {
            OperatingSystem::Arch => "arch"@,
            OperatingSystem::Alpine => "alpine"@,
            OperatingSystem::Debian => "debian"@,
            OperatingSystem::Ubuntu => "ubuntu"@,
            OperatingSystem::Fedora => "fedora"@,
        }
    }

    /// The operating system that an `ID=` value names.
    pub open spec fn from_id_spec(v: Seq<char>) -> Option<OperatingSystem> {
        if v == "arch"@ {
            Some(OperatingSystem::Arch)
        } else if v == "alpine"@ {
            Some(OperatingSystem::Alpine)
        } else if v == "debian"@ {
            Some(OperatingSystem::Debian)
        } else if v == "ubuntu"@ {
            Some(OperatingSystem::Ubuntu)
        } else if v == "fedora"@ {
            Some(OperatingSystem::Fedora)
        } else {
            None
        }
    }

    /// The operating system that a host identification file (such as
    /// `/etc/os-release`) describes by its first `ID=` line, or
    /// `UnknownOperatingSystem` where there is no such line or its value
    /// names none of them.
    pub fn from_os_release(contents: &str) -> (r: DepotResult<OperatingSystem>)
        ensures
            detect(contents@) matches Some(os) ==> r == Ok::<_, DepotError>(os),
            detect(contents@) is None ==> r == Err::<OperatingSystem, _>(
                DepotError::UnknownOperatingSystem,
            ),
    {
        let c = chars_of(contents);
        let ghost s = c@;
        let n = c.len();
        let mut i: usize = 0;
        while i < n && !((i == 0 || c[i - 1] == '\n') && n - i >= 3 && segment_is(
            &c,
            i,
            i + 3,
            "ID=",
        ))
            invariant
                s == c@,
                n == s.len(),
                i <= n,
                id_line_from(s, 0) == id_line_from(s, i as int),
            decreases n - i,
        {
            i = i + 1;
        }
        if i == n {
            return Err(DepotError::UnknownOperatingSystem);
        }
        let start = i;
        let from = start + 3;
        proof {
            reveal_strlit("ID=");
            assert(s.subrange(start as int, from as int)[0] == 'I');
            assert(s.subrange(start as int, from as int)[1] == 'D');
            assert(s.subrange(start as int, from as int)[2] == '=');
            assert(line_end(s, start + 1) == line_end(s, start + 2));
            assert(line_end(s, start as int) == line_end(s, from as int));
        }
        let mut end = from;
        while end < n && c[end] != '\n'
            invariant
                s == c@,
                n == s.len(),
                from <= end <= n,
                line_end(s, start as int) == line_end(s, end as int),
            decreases n - end,
        {
            end = end + 1;
        }
        assert(id_value(s) == Some(s.subrange(from as int, end as int)));
        if segment_is(&c, from, end, "arch") {
            Ok(OperatingSystem::Arch)
        } else if segment_is(&c, from, end, "alpine") {
            Ok(OperatingSystem::Alpine)
        } else if segment_is(&c, from, end, "debian") {
            Ok(OperatingSystem::Debian)
        } else if segment_is(&c, from, end, "ubuntu") {
            Ok(OperatingSystem::Ubuntu)
        } else if segment_is(&c, from, end, "fedora") {
            Ok(OperatingSystem::Fedora)
        } else {
            Err(DepotError::UnknownOperatingSystem)
        }
    }
}

} // verus!
