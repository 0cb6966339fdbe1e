//! The open-flag bitmask: recognized flag bits, truncating decode, and
//! the rendering of a mask as the names of the flags it holds.

use vstd::prelude::*;
use vstd::string::StringExecFns;

verus! {

pub const O_WRONLY: u64 = 1;

pub const O_RDWR: u64 = 2;

pub const O_CREAT: u64 = 64;

pub const O_EXCL: u64 = 128;

pub const O_NOCTTY: u64 = 256;

pub const O_TRUNC: u64 = 512;

pub const O_APPEND: u64 = 1024;

pub const O_NONBLOCK: u64 = 2048;

pub const O_NDELAY: u64 = 0x800;

pub const O_DSYNC: u64 = 4096;

pub const O_ASYNC: u64 = 0x2000;

pub const O_DIRECT: u64 = 0x4000;

pub const O_DIRECTORY: u64 = 0x10000;

pub const O_NOFOLLOW: u64 = 0x20000;

pub const O_CLOEXEC: u64 = 0x80000;

pub const O_SYNC: u64 = 1052672;

pub const O_RSYNC: u64 = 1052672;

pub const O_FSYNC: u64 = 0x101000;

pub const O_NOATIME: u64 = 0o1000000;

pub const O_PATH: u64 = 0o10000000;

pub const O_TMPFILE: u64 = 0x404000;

/// The union of every recognized flag bit.
pub const ALL_OPEN_FLAGS: u64 = 0x7F7FC3;

/// The access-mode bits: read-only, write-only, read-write.
pub const O_ACCMODE: u64 = 3;

/// A bitmask of open flags, holding only recognized bits: the decode is
/// truncating, unrecognized bits are silently dropped.
pub struct OpenFlagSet {
    pub bits: u64,
}

impl OpenFlagSet {
    /// True when every bit of `mask` is set in this set.
    pub open spec fn spec_contains(self, mask: u64) -> bool {
        self.bits & mask == mask
    }

    /// Decodes a raw register value, dropping every unrecognized bit.
    pub fn from_bits_truncate(v: u64) -> (r: OpenFlagSet)
        ensures
            r.bits == v & ALL_OPEN_FLAGS,
    {
        OpenFlagSet { bits: v & ALL_OPEN_FLAGS }
    }

    /// True when every bit of `mask` is set in this set.
    pub fn contains(&self, mask: u64) -> (b: bool)
        ensures
            b == self.spec_contains(mask),
    {
        self.bits & mask == mask
    }

    /// The names of the flags this set holds.
    pub fn names(&self) -> (s: String)
        ensures
            s@ == flags_seq(self.bits),
    {
        format_flags(self.bits)
    }
}

/// The text for the access mode: exactly one of the three modes, except
/// that the invalid combination of both write modes shows both.
pub open spec fn access_seq(v: u64) -> Seq<char> {
    if v & O_ACCMODE == 0 {
        "O_RDONLY"@
    } else if v & O_ACCMODE == 1 {
        "O_WRONLY"@
    } else if v & O_ACCMODE == 2 {
        "O_RDWR"@
    } else {
        "O_WRONLY | O_RDWR"@
    }
}

/// The contribution of one named flag: its name behind a separator when
/// all its bits are set, nothing otherwise.
pub open spec fn flag_part(v: u64, mask: u64, name: Seq<char>) -> Seq<char> {
    if v & mask == mask {
        " | "@ + name
    } else {
        Seq::empty()
    }
}

/// The text of a whole flag mask: the access mode first, then every
/// other recognized flag whose bits are all set, in a fixed order.
pub open spec fn flags_seq(v: u64) -> Seq<char> {
    access_seq(v) + flag_part(v, O_CLOEXEC, "O_CLOEXEC"@) + flag_part(v, O_TRUNC, "O_TRUNC"@)
        + flag_part(v, O_APPEND, "O_APPEND"@) + flag_part(v, O_CREAT, "O_CREAT"@) + flag_part(
        v,
        O_EXCL,
        "O_EXCL"@,
    ) + flag_part(v, O_NOCTTY, "O_NOCTTY"@) + flag_part(v, O_NONBLOCK, "O_NONBLOCK"@) + flag_part(
        v,
        O_SYNC,
        "O_SYNC"@,
    ) + flag_part(v, O_RSYNC, "O_RSYNC"@) + flag_part(v, O_DSYNC, "O_DSYNC"@) + flag_part(
        v,
        O_FSYNC,
        "O_FSYNC"@,
    ) + flag_part(v, O_NOATIME, "O_NOATIME"@) + flag_part(v, O_PATH, "O_PATH"@) + flag_part(
        v,
        O_ASYNC,
        "O_ASYNC"@,
    ) + flag_part(v, O_NDELAY, "O_NDELAY"@) + flag_part(v, O_DIRECT, "O_DIRECT"@) + flag_part(
        v,
        O_DIRECTORY,
        "O_DIRECTORY"@,
    ) + flag_part(v, O_NOFOLLOW, "O_NOFOLLOW"@) + flag_part(v, O_TMPFILE, "O_TMPFILE"@)
}

/// Renders a raw flag value as the names of the recognized flags it
/// holds, joined by a separator; the access mode always comes first.
pub fn format_flags(v: u64) -> (s: String)
    ensures
        s@ == flags_seq(v),
{
    let mut s: String = if v & O_ACCMODE == 0 {
        String::from_str("O_RDONLY")
    } else if v & O_ACCMODE == 1 {
        String::from_str("O_WRONLY")
    } else if v & O_ACCMODE == 2 {
        String::from_str("O_RDWR")
    } else {
        String::from_str("O_WRONLY | O_RDWR")
    };
    proof {
        assert(s@ == access_seq(v));
    }
    append_flags_a(v, &mut s);
    append_flags_b(v, &mut s);
    append_flags_c(v, &mut s);
    append_flags_d(v, &mut s);
    proof {
        assert(s@ == flags_seq(v));
    }
    s
}

/// Appends one run of flag names; a building block of `format_flags`.
fn append_flags_a(v: u64, s: &mut String)
    ensures
        final(s)@ == old(s)@ + flag_part(v, O_CLOEXEC, "O_CLOEXEC"@) + flag_part(v, O_TRUNC, "O_TRUNC"@) + flag_part(v, O_APPEND, "O_APPEND"@) + flag_part(v, O_CREAT, "O_CREAT"@) + flag_part(v, O_EXCL, "O_EXCL"@),
{
    let ghost mut acc: Seq<char> = s@;
    proof {
        assert(s@ == acc);
    }
    if v & O_CLOEXEC == O_CLOEXEC {
        s.append(" | O_CLOEXEC");
        proof {
            reveal_strlit(" | O_CLOEXEC");
            reveal_strlit(" | ");
            reveal_strlit("O_CLOEXEC");
            assert(" | O_CLOEXEC"@ =~= " | "@ + "O_CLOEXEC"@);
        }
    }
    proof {
        if v & O_CLOEXEC == O_CLOEXEC {
            assert(s@ == acc + flag_part(v, O_CLOEXEC, "O_CLOEXEC"@));
        } else {
            Seq::add_empty_right(acc, flag_part(v, O_CLOEXEC, "O_CLOEXEC"@));
        }
        acc = acc + flag_part(v, O_CLOEXEC, "O_CLOEXEC"@);
        assert(s@ == acc);
    }
    if v & O_TRUNC == O_TRUNC {
        s.append(" | O_TRUNC");
        proof {
            reveal_strlit(" | O_TRUNC");
            reveal_strlit(" | ");
            reveal_strlit("O_TRUNC");
            assert(" | O_TRUNC"@ =~= " | "@ + "O_TRUNC"@);
        }
    }
    proof {
        if v & O_TRUNC == O_TRUNC {
            assert(s@ == acc + flag_part(v, O_TRUNC, "O_TRUNC"@));
        } else {
            Seq::add_empty_right(acc, flag_part(v, O_TRUNC, "O_TRUNC"@));
        }
        acc = acc + flag_part(v, O_TRUNC, "O_TRUNC"@);
        assert(s@ == acc);
    }
    if v & O_APPEND == O_APPEND {
        s.append(" | O_APPEND");
        proof {
            reveal_strlit(" | O_APPEND");
            reveal_strlit(" | ");
            reveal_strlit("O_APPEND");
            assert(" | O_APPEND"@ =~= " | "@ + "O_APPEND"@);
        }
    }
    proof {
        if v & O_APPEND == O_APPEND {
            assert(s@ == acc + flag_part(v, O_APPEND, "O_APPEND"@));
        } else {
            Seq::add_empty_right(acc, flag_part(v, O_APPEND, "O_APPEND"@));
        }
        acc = acc + flag_part(v, O_APPEND, "O_APPEND"@);
        assert(s@ == acc);
    }
    if v & O_CREAT == O_CREAT {
        s.append(" | O_CREAT");
        proof {
            reveal_strlit(" | O_CREAT");
            reveal_strlit(" | ");
            reveal_strlit("O_CREAT");
            assert(" | O_CREAT"@ =~= " | "@ + "O_CREAT"@);
        }
    }
    proof {
        if v & O_CREAT == O_CREAT {
            assert(s@ == acc + flag_part(v, O_CREAT, "O_CREAT"@));
        } else {
            Seq::add_empty_right(acc, flag_part(v, O_CREAT, "O_CREAT"@));
        }
        acc = acc + flag_part(v, O_CREAT, "O_CREAT"@);
        assert(s@ == acc);
    }
    if v & O_EXCL == O_EXCL {
        s.append(" | O_EXCL");
        proof {
            reveal_strlit(" | O_EXCL");
            reveal_strlit(" | ");
            reveal_strlit("O_EXCL");
            assert(" | O_EXCL"@ =~= " | "@ + "O_EXCL"@);
        }
    }
    proof {
        if v & O_EXCL == O_EXCL {
            assert(s@ == acc + flag_part(v, O_EXCL, "O_EXCL"@));
        } else {
            Seq::add_empty_right(acc, flag_part(v, O_EXCL, "O_EXCL"@));
        }
        acc = acc + flag_part(v, O_EXCL, "O_EXCL"@);
        assert(s@ == acc);
    }
}

/// Appends one run of flag names; a building block of `format_flags`.
fn append_flags_b(v: u64, s: &mut String)
    ensures
        final(s)@ == old(s)@ + flag_part(v, O_NOCTTY, "O_NOCTTY"@) + flag_part(v, O_NONBLOCK, "O_NONBLOCK"@) + flag_part(v, O_SYNC, "O_SYNC"@) + flag_part(v, O_RSYNC, "O_RSYNC"@) + flag_part(v, O_DSYNC, "O_DSYNC"@),
{
    let ghost mut acc: Seq<char> = s@;
    proof {
        assert(s@ == acc);
    }
    if v & O_NOCTTY == O_NOCTTY {
        s.append(" | O_NOCTTY");
        proof {
            reveal_strlit(" | O_NOCTTY");
            reveal_strlit(" | ");
            reveal_strlit("O_NOCTTY");
            assert(" | O_NOCTTY"@ =~= " | "@ + "O_NOCTTY"@);
        }
    }
    proof {
        if v & O_NOCTTY == O_NOCTTY {
            assert(s@ == acc + flag_part(v, O_NOCTTY, "O_NOCTTY"@));
        } else {
            Seq::add_empty_right(acc, flag_part(v, O_NOCTTY, "O_NOCTTY"@));
        }
        acc = acc + flag_part(v, O_NOCTTY, "O_NOCTTY"@);
        assert(s@ == acc);
    }
    if v & O_NONBLOCK == O_NONBLOCK {
        s.append(" | O_NONBLOCK");
        proof {
            reveal_strlit(" | O_NONBLOCK");
            reveal_strlit(" | ");
            reveal_strlit("O_NONBLOCK");
            assert(" | O_NONBLOCK"@ =~= " | "@ + "O_NONBLOCK"@);
        }
    }
    proof {
        if v & O_NONBLOCK == O_NONBLOCK {
            assert(s@ == acc + flag_part(v, O_NONBLOCK, "O_NONBLOCK"@));
        } else {
            Seq::add_empty_right(acc, flag_part(v, O_NONBLOCK, "O_NONBLOCK"@));
        }
        acc = acc + flag_part(v, O_NONBLOCK, "O_NONBLOCK"@);
        assert(s@ == acc);
    }
    if v & O_SYNC == O_SYNC {
        s.append(" | O_SYNC");
        proof {
            reveal_strlit(" | O_SYNC");
            reveal_strlit(" | ");
            reveal_strlit("O_SYNC");
            assert(" | O_SYNC"@ =~= " | "@ + "O_SYNC"@);
        }
    }
    proof {
        if v & O_SYNC == O_SYNC {
            assert(s@ == acc + flag_part(v, O_SYNC, "O_SYNC"@));
        } else {
            Seq::add_empty_right(acc, flag_part(v, O_SYNC, "O_SYNC"@));
        }
        acc = acc + flag_part(v, O_SYNC, "O_SYNC"@);
        assert(s@ == acc);
    }
    if v & O_RSYNC == O_RSYNC {
        s.append(" | O_RSYNC");
        proof {
            reveal_strlit(" | O_RSYNC");
            reveal_strlit(" | ");
            reveal_strlit("O_RSYNC");
            assert(" | O_RSYNC"@ =~= " | "@ + "O_RSYNC"@);
        }
    }
    proof {
        if v & O_RSYNC == O_RSYNC {
            assert(s@ == acc + flag_part(v, O_RSYNC, "O_RSYNC"@));
        } else {
            Seq::add_empty_right(acc, flag_part(v, O_RSYNC, "O_RSYNC"@));
        }
        acc = acc + flag_part(v, O_RSYNC, "O_RSYNC"@);
        assert(s@ == acc);
    }
    if v & O_DSYNC == O_DSYNC {
        s.append(" | O_DSYNC");
        proof {
            reveal_strlit(" | O_DSYNC");
            reveal_strlit(" | ");
            reveal_strlit("O_DSYNC");
            assert(" | O_DSYNC"@ =~= " | "@ + "O_DSYNC"@);
        }
    }
    proof {
        if v & O_DSYNC == O_DSYNC {
            assert(s@ == acc + flag_part(v, O_DSYNC, "O_DSYNC"@));
        } else {
            Seq::add_empty_right(acc, flag_part(v, O_DSYNC, "O_DSYNC"@));
        }
        acc = acc + flag_part(v, O_DSYNC, "O_DSYNC"@);
        assert(s@ == acc);
    }
}

/// Appends one run of flag names; a building block of `format_flags`.
fn append_flags_c(v: u64, s: &mut String)
    ensures
        final(s)@ == old(s)@ + flag_part(v, O_FSYNC, "O_FSYNC"@) + flag_part(v, O_NOATIME, "O_NOATIME"@) + flag_part(v, O_PATH, "O_PATH"@) + flag_part(v, O_ASYNC, "O_ASYNC"@) + flag_part(v, O_NDELAY, "O_NDELAY"@),
{
    let ghost mut acc: Seq<char> = s@;
    proof {
        assert(s@ == acc);
    }
    if v & O_FSYNC == O_FSYNC {
        s.append(" | O_FSYNC");
        proof {
            reveal_strlit(" | O_FSYNC");
            reveal_strlit(" | ");
            reveal_strlit("O_FSYNC");
            assert(" | O_FSYNC"@ =~= " | "@ + "O_FSYNC"@);
        }
    }
    proof {
        if v & O_FSYNC == O_FSYNC {
            assert(s@ == acc + flag_part(v, O_FSYNC, "O_FSYNC"@));
        } else {
            Seq::add_empty_right(acc, flag_part(v, O_FSYNC, "O_FSYNC"@));
        }
        acc = acc + flag_part(v, O_FSYNC, "O_FSYNC"@);
        assert(s@ == acc);
    }
    if v & O_NOATIME == O_NOATIME {
        s.append(" | O_NOATIME");
        proof {
            reveal_strlit(" | O_NOATIME");
            reveal_strlit(" | ");
            reveal_strlit("O_NOATIME");
            assert(" | O_NOATIME"@ =~= " | "@ + "O_NOATIME"@);
        }
    }
    proof {
        if v & O_NOATIME == O_NOATIME {
            assert(s@ == acc + flag_part(v, O_NOATIME, "O_NOATIME"@));
        } else {
            Seq::add_empty_right(acc, flag_part(v, O_NOATIME, "O_NOATIME"@));
        }
        acc = acc + flag_part(v, O_NOATIME, "O_NOATIME"@);
        assert(s@ == acc);
    }
    if v & O_PATH == O_PATH {
        s.append(" | O_PATH");
        proof {
            reveal_strlit(" | O_PATH");
            reveal_strlit(" | ");
            reveal_strlit("O_PATH");
            assert(" | O_PATH"@ =~= " | "@ + "O_PATH"@);
        }
    }
    proof {
        if v & O_PATH == O_PATH {
            assert(s@ == acc + flag_part(v, O_PATH, "O_PATH"@));
        } else {
            Seq::add_empty_right(acc, flag_part(v, O_PATH, "O_PATH"@));
        }
        acc = acc + flag_part(v, O_PATH, "O_PATH"@);
        assert(s@ == acc);
    }
    if v & O_ASYNC == O_ASYNC {
        s.append(" | O_ASYNC");
        proof {
            reveal_strlit(" | O_ASYNC");
            reveal_strlit(" | ");
            reveal_strlit("O_ASYNC");
            assert(" | O_ASYNC"@ =~= " | "@ + "O_ASYNC"@);
        }
    }
    proof {
        if v & O_ASYNC == O_ASYNC {
            assert(s@ == acc + flag_part(v, O_ASYNC, "O_ASYNC"@));
        } else {
            Seq::add_empty_right(acc, flag_part(v, O_ASYNC, "O_ASYNC"@));
        }
        acc = acc + flag_part(v, O_ASYNC, "O_ASYNC"@);
        assert(s@ == acc);
    }
    if v & O_NDELAY == O_NDELAY {
        s.append(" | O_NDELAY");
        proof {
            reveal_strlit(" | O_NDELAY");
            reveal_strlit(" | ");
            reveal_strlit("O_NDELAY");
            assert(" | O_NDELAY"@ =~= " | "@ + "O_NDELAY"@);
        }
    }
    proof {
        if v & O_NDELAY == O_NDELAY {
            assert(s@ == acc + flag_part(v, O_NDELAY, "O_NDELAY"@));
        } else {
            Seq::add_empty_right(acc, flag_part(v, O_NDELAY, "O_NDELAY"@));
        }
        acc = acc + flag_part(v, O_NDELAY, "O_NDELAY"@);
        assert(s@ == acc);
    }
}

/// Appends one run of flag names; a building block of `format_flags`.
fn append_flags_d(v: u64, s: &mut String)
    ensures
        final(s)@ == old(s)@ + flag_part(v, O_DIRECT, "O_DIRECT"@) + flag_part(v, O_DIRECTORY, "O_DIRECTORY"@) + flag_part(v, O_NOFOLLOW, "O_NOFOLLOW"@) + flag_part(v, O_TMPFILE, "O_TMPFILE"@),
{
    let ghost mut acc: Seq<char> = s@;
    proof {
        assert(s@ == acc);
    }
    if v & O_DIRECT == O_DIRECT {
        s.append(" | O_DIRECT");
        proof {
            reveal_strlit(" | O_DIRECT");
            reveal_strlit(" | ");
            reveal_strlit("O_DIRECT");
            assert(" | O_DIRECT"@ =~= " | "@ + "O_DIRECT"@);
        }
    }
    proof {
        if v & O_DIRECT == O_DIRECT {
            assert(s@ == acc + flag_part(v, O_DIRECT, "O_DIRECT"@));
        } else {
            Seq::add_empty_right(acc, flag_part(v, O_DIRECT, "O_DIRECT"@));
        }
        acc = acc + flag_part(v, O_DIRECT, "O_DIRECT"@);
        assert(s@ == acc);
    }
    if v & O_DIRECTORY == O_DIRECTORY {
        s.append(" | O_DIRECTORY");
        proof {
            reveal_strlit(" | O_DIRECTORY");
            reveal_strlit(" | ");
            reveal_strlit("O_DIRECTORY");
            assert(" | O_DIRECTORY"@ =~= " | "@ + "O_DIRECTORY"@);
        }
    }
    proof {
        if v & O_DIRECTORY == O_DIRECTORY {
            assert(s@ == acc + flag_part(v, O_DIRECTORY, "O_DIRECTORY"@));
        } else {
            Seq::add_empty_right(acc, flag_part(v, O_DIRECTORY, "O_DIRECTORY"@));
        }
        acc = acc + flag_part(v, O_DIRECTORY, "O_DIRECTORY"@);
        assert(s@ == acc);
    }
    if v & O_NOFOLLOW == O_NOFOLLOW {
        s.append(" | O_NOFOLLOW");
        proof {
            reveal_strlit(" | O_NOFOLLOW");
            reveal_strlit(" | ");
            reveal_strlit("O_NOFOLLOW");
            assert(" | O_NOFOLLOW"@ =~= " | "@ + "O_NOFOLLOW"@);
        }
    }
    proof {
        if v & O_NOFOLLOW == O_NOFOLLOW {
            assert(s@ == acc + flag_part(v, O_NOFOLLOW, "O_NOFOLLOW"@));
        } else {
            Seq::add_empty_right(acc, flag_part(v, O_NOFOLLOW, "O_NOFOLLOW"@));
        }
        acc = acc + flag_part(v, O_NOFOLLOW, "O_NOFOLLOW"@);
        assert(s@ == acc);
    }
    if v & O_TMPFILE == O_TMPFILE {
        s.append(" | O_TMPFILE");
        proof {
            reveal_strlit(" | O_TMPFILE");
            reveal_strlit(" | ");
            reveal_strlit("O_TMPFILE");
            assert(" | O_TMPFILE"@ =~= " | "@ + "O_TMPFILE"@);
        }
    }
    proof {
        if v & O_TMPFILE == O_TMPFILE {
            assert(s@ == acc + flag_part(v, O_TMPFILE, "O_TMPFILE"@));
        } else {
            Seq::add_empty_right(acc, flag_part(v, O_TMPFILE, "O_TMPFILE"@));
        }
        acc = acc + flag_part(v, O_TMPFILE, "O_TMPFILE"@);
        assert(s@ == acc);
    }
}

/// One flag's contribution is the same for two values that agree on
/// whether the flag is set.
proof fn lemma_part_eq(w: u64, v: u64, mask: u64, name: Seq<char>)
    requires
        (w & mask == mask) <==> (v & mask == mask),
    ensures
        flag_part(w, mask, name) == flag_part(v, mask, name),
{
}

/// Rendering the decoded set shows the same names as rendering the raw
/// value: truncation drops only bits that never had a name.
#[verifier::rlimit(100)]
pub proof fn lemma_decode_keeps_names(v: u64)
    ensures
        flags_seq(v & ALL_OPEN_FLAGS) == flags_seq(v),
{
    let w = v & ALL_OPEN_FLAGS;
    assert(w & 3 == v & 3 && (w & 0x80000u64 == 0x80000 <==> v & 0x80000u64 == 0x80000) && (w
        & 512u64 == 512 <==> v & 512u64 == 512) && (w & 1024u64 == 1024 <==> v & 1024u64 == 1024)
        && (w & 64u64 == 64 <==> v & 64u64 == 64) && (w & 128u64 == 128 <==> v & 128u64 == 128) && (
    w & 256u64 == 256 <==> v & 256u64 == 256) && (w & 2048u64 == 2048 <==> v & 2048u64 == 2048) && (
    w & 1052672u64 == 1052672 <==> v & 1052672u64 == 1052672) && (w & 4096u64 == 4096 <==> v
        & 4096u64 == 4096) && (w & 0x101000u64 == 0x101000 <==> v & 0x101000u64 == 0x101000) && (w
        & 0o1000000u64 == 0o1000000 <==> v & 0o1000000u64 == 0o1000000) && (w & 0o10000000u64
        == 0o10000000 <==> v & 0o10000000u64 == 0o10000000) && (w & 0x2000u64 == 0x2000 <==> v
        & 0x2000u64 == 0x2000) && (w & 0x800u64 == 0x800 <==> v & 0x800u64 == 0x800) && (w
        & 0x4000u64 == 0x4000 <==> v & 0x4000u64 == 0x4000) && (w & 0x10000u64 == 0x10000 <==> v
        & 0x10000u64 == 0x10000) && (w & 0x20000u64 == 0x20000 <==> v & 0x20000u64 == 0x20000) && (
    w & 4210688u64 == 4210688 <==> v & 4210688u64 == 4210688)) by (bit_vector)
        requires
            w == v & 0x7F7FC3u64,
    ;
    lemma_part_eq(w, v, O_CLOEXEC, "O_CLOEXEC"@);
    lemma_part_eq(w, v, O_TRUNC, "O_TRUNC"@);
    lemma_part_eq(w, v, O_APPEND, "O_APPEND"@);
    lemma_part_eq(w, v, O_CREAT, "O_CREAT"@);
    lemma_part_eq(w, v, O_EXCL, "O_EXCL"@);
    lemma_part_eq(w, v, O_NOCTTY, "O_NOCTTY"@);
    lemma_part_eq(w, v, O_NONBLOCK, "O_NONBLOCK"@);
    lemma_part_eq(w, v, O_SYNC, "O_SYNC"@);
    lemma_part_eq(w, v, O_RSYNC, "O_RSYNC"@);
    lemma_part_eq(w, v, O_DSYNC, "O_DSYNC"@);
    lemma_part_eq(w, v, O_FSYNC, "O_FSYNC"@);
    lemma_part_eq(w, v, O_NOATIME, "O_NOATIME"@);
    lemma_part_eq(w, v, O_PATH, "O_PATH"@);
    lemma_part_eq(w, v, O_ASYNC, "O_ASYNC"@);
    lemma_part_eq(w, v, O_NDELAY, "O_NDELAY"@);
    lemma_part_eq(w, v, O_DIRECT, "O_DIRECT"@);
    lemma_part_eq(w, v, O_DIRECTORY, "O_DIRECTORY"@);
    lemma_part_eq(w, v, O_NOFOLLOW, "O_NOFOLLOW"@);
    lemma_part_eq(w, v, O_TMPFILE, "O_TMPFILE"@);
    assert(access_seq(w) == access_seq(v));
    assert(flags_seq(w) == flags_seq(v));
}

} // verus!
