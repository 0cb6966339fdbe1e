//! Per-syscall argument decoding: registers and remote memory in, one
//! formatted argument string out. A failed remote read never aborts the
//! trace; it shows as a placeholder argument instead.

use vstd::prelude::*;
use vstd::string::StringExecFns;
use crate::flags::{flags_seq, format_flags};
use crate::fmt::{chars_of, dec_seq, dec_u64, dec_i64, int_seq, display_bytes, sanitize_seq};
use crate::remote::{read_remote_buf, read_remote_string, get_regs, RegisterSnapshot, RemoteString,
    PATH_DISPLAY_MAX, capped_len, clip, prefix_before_nul, words_bytes, lemma_no_nul_scans_whole};
use crate::sockaddr::{decode_sockaddr, sockaddr_model, DecodedSockAddr};

verus! {

/// The entry text of a file-open call: directory fd, quoted path, flag
/// names, and mode.
pub open spec fn openat_seq(fd: u64, path: Seq<char>, flags: u64, mode: u64) -> Seq<char> {
    "> openat("@ + dec_seq(fd as nat) + ", '"@ + path + "', "@ + flags_seq(flags) + ", "@
        + dec_seq(mode as nat) + ")"@
}

/// The entry text of an outbound-connect call: fd, address with its
/// port where the family has one, and the caller's length argument.
pub open spec fn connect_seq(fd: u64, addr: Seq<char>, port: Option<u16>, len: u64) -> Seq<char> {
    "> connect("@ + dec_seq(fd as nat) + ", "@ + addr + (match port {
        Option::Some(p) => ":"@ + dec_seq(p as nat),
        Option::None => Seq::empty(),
    }) + ", "@ + dec_seq(len as nat) + ")"@
}

/// Builds the entry text of a file-open call from already-decoded parts.
pub fn format_openat(fd: u64, path: &String, flags: u64, mode: u64) -> (s: String)
    ensures
        s@ == openat_seq(fd, path@, flags, mode),
{
    let mut s = String::from_str("> openat(");
    s.append(dec_u64(fd).as_str());
    s.append(", '");
    s.append(path.as_str());
    s.append("', ");
    s.append(format_flags(flags).as_str());
    s.append(", ");
    s.append(dec_u64(mode).as_str());
    s.append(")");
    s
}

/// Builds the entry text of an outbound-connect call from a decoded
/// socket address.
pub fn format_connect(fd: u64, sa: &DecodedSockAddr, len: u64) -> (s: String)
    ensures
        s@ == connect_seq(fd, sa.addr@, sa.port, len),
{
    let mut s = String::from_str("> connect(");
    s.append(dec_u64(fd).as_str());
    s.append(", ");
    s.append(sa.addr.as_str());
    match sa.port {
        Option::Some(p) => {
            s.append(":");
            s.append(dec_u64(p as u64).as_str());
        },
        Option::None => {},
    }
    s.append(", ");
    s.append(dec_u64(len).as_str());
    s.append(")");
    s
}

/// What the path argument of a file-open call can read as: the
/// sanitized, capped text of the bytes before the first NUL of some
/// scanned word stream, or the placeholder for a failed read.
pub open spec fn path_text(p: Seq<char>) -> bool {
    (exists|ws: Seq<u64>| p == chars_of(sanitize_seq(clip(prefix_before_nul(words_bytes(ws))))))
        || p == "?"@
}

/// What the address argument of an outbound-connect call can read as:
/// the address and port that the socket-address decode of the first
/// `capped_len` bytes of some word stream yields, or the placeholder
/// for a failed read.
pub open spec fn connect_addr_text(len: u64, addr: Seq<char>, port: Option<u16>) -> bool {
    (exists|ws: Seq<u64>|
        8 * ws.len() >= capped_len(len) && addr == sockaddr_model(
            words_bytes(ws).take(capped_len(len)),
        ).1 && port == sockaddr_model(words_bytes(ws).take(capped_len(len))).2) || (addr == "?"@
        && port is None)
}

/// Decodes a file-open call at its entry stop: the path is read from
/// the tracee with the bounded string scan, a failed read showing as a
/// placeholder, and the flag bits are rendered by name.
pub fn openat_args(pid: i32, regs: &RegisterSnapshot) -> (s: String)
    ensures
        (exists|p: Seq<char>|
            s@ == openat_seq(regs.arg0, p, regs.arg2, regs.arg3) && path_text(p) && p.len()
                <= PATH_DISPLAY_MAX),
{
    let (scan, ws) = read_remote_string(pid, regs.arg1);
    let path: String = match scan {
        RemoteString::Terminated(b) => {
            let r = display_bytes(&b);
            proof {
                assert(r@ == chars_of(sanitize_seq(clip(prefix_before_nul(words_bytes(ws@))))));
                assert(path_text(r@));
            }
            r
        },
        RemoteString::Unterminated(b) => {
            let r = display_bytes(&b);
            proof {
                lemma_no_nul_scans_whole(words_bytes(ws@));
                assert(clip(words_bytes(ws@)) == words_bytes(ws@));
                assert(r@ == chars_of(sanitize_seq(clip(prefix_before_nul(words_bytes(ws@))))));
                assert(path_text(r@));
            }
            r
        },
        RemoteString::Fault => {
            proof {
                reveal_strlit("?");
            }
            String::from_str("?")
        },
    };
    proof {
        reveal_strlit("?");
        assert(path_text(path@));
        assert(path@.len() <= PATH_DISPLAY_MAX);
    }
    format_openat(regs.arg0, &path, regs.arg2, regs.arg3)
}

/// Decodes an outbound-connect call at its entry stop: the address
/// bytes are read at the length the caller gave, then interpreted by
/// family; a failed read shows as a placeholder address.
pub fn connect_args(pid: i32, regs: &RegisterSnapshot) -> (s: String)
    ensures
        (exists|addr: Seq<char>, port: Option<u16>|
            s@ == connect_seq(regs.arg0, addr, port, regs.arg2) && connect_addr_text(
                regs.arg2,
                addr,
                port,
            )),
{
    let (buf, ws) = read_remote_buf(pid, regs.arg1, regs.arg2);
    match buf {
        Option::Some(b) => {
            let sa = decode_sockaddr(&b);
            proof {
                assert(b@ == words_bytes(ws@).take(capped_len(regs.arg2)));
                assert(sa.addr@ == sockaddr_model(b@).1 && sa.port == sockaddr_model(b@).2);
                assert(connect_addr_text(regs.arg2, sa.addr@, sa.port));
            }
            format_connect(regs.arg0, &sa, regs.arg2)
        },
        Option::None => {
            proof {
                reveal_strlit("?");
            }
            let sa = DecodedSockAddr {
                family: 0,
                addr: String::from_str("?"),
                port: Option::None,
            };
            proof {
                assert(connect_addr_text(regs.arg2, sa.addr@, sa.port));
            }
            format_connect(regs.arg0, &sa, regs.arg2)
        },
    }
}

/// What the entry text of one syscall stop can read as, given the
/// register snapshot it was decoded from: the two fully decoded calls,
/// the three acknowledged by name, and the bare number for everything
/// else.
pub open spec fn entry_text(rg: RegisterSnapshot, s: Seq<char>) -> bool {
    if rg.syscall_nr == 257 {
        exists|p: Seq<char>|
            s == openat_seq(rg.arg0, p, rg.arg2, rg.arg3) && path_text(p) && p.len()
                <= PATH_DISPLAY_MAX
    } else if rg.syscall_nr == 42 {
        exists|addr: Seq<char>, port: Option<u16>|
            s == connect_seq(rg.arg0, addr, port, rg.arg2) && connect_addr_text(
                rg.arg2,
                addr,
                port,
            )
    } else if rg.syscall_nr == 0 {
        s == "> read"@
    } else if rg.syscall_nr == 1 {
        s == "> write"@
    } else if rg.syscall_nr == 2 {
        s == "> open"@
    } else {
        s == "> syscall "@ + dec_seq(rg.syscall_nr as nat)
    }
}

/// Decodes the entry stop of one syscall from its register snapshot,
/// dispatching on the syscall number.
pub fn entry_prefix(pid: i32, regs: &RegisterSnapshot) -> (s: String)
    ensures
        entry_text(*regs, s@),
{
    if regs.syscall_nr == 257 {
        openat_args(pid, regs)
    } else if regs.syscall_nr == 42 {
        connect_args(pid, regs)
    } else if regs.syscall_nr == 0 {
        String::from_str("> read")
    } else if regs.syscall_nr == 1 {
        String::from_str("> write")
    } else if regs.syscall_nr == 2 {
        String::from_str("> open")
    } else {
        let mut s = String::from_str("> syscall ");
        s.append(dec_u64(regs.syscall_nr).as_str());
        s
    }
}

/// Reads and renders the return value at an exit stop: the return-value
/// register as a signed integer, negative values printed as the
/// negative errno unmodified; a failed register read shows as a
/// placeholder.
pub fn exit_value(pid: i32) -> (s: String)
    ensures
        (exists|rv: i64| s@ == int_seq(rv as int)) || s@ == "?"@,
{
    match get_regs(pid) {
        Option::Some(r) => {
            let rv: i64 = #[verifier::truncate] (r.retval as i64);
            let s = dec_i64(rv);
            proof {
                assert(exists|x: i64| s@ == int_seq(x as int)) by {
                    assert(s@ == int_seq(rv as int));
                }
            }
            s
        },
        Option::None => {
            proof {
                reveal_strlit("?");
            }
            String::from_str("?")
        },
    }
}

} // verus!
