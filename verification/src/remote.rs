//! Access to the tracee's registers and address space, and the bounded
//! scan that rebuilds a NUL-terminated string from remote words.

use vstd::prelude::*;

verus! {

/// Words read in one string scan, at most: a remote buffer with no
/// terminator must not stall the controller.
pub const MAX_SCAN_WORDS: usize = 512;

/// Bytes of a decoded string kept for display, at most: the usual OS
/// path-length limit.
pub const PATH_DISPLAY_MAX: usize = 4096;

/// Bytes of a socket address accepted, at most: the size of the largest
/// address structure the kernel hands out.
pub const SOCKADDR_MAX: usize = 128;

/// A point-in-time capture of the tracee's general-purpose registers at
/// one stop event. `syscall_nr` is the number of the call being made,
/// `arg0` through `arg5` its argument registers in calling-convention
/// order, and `retval` the return-value register, meaningful at an exit
/// stop.
pub struct RegisterSnapshot {
    pub syscall_nr: u64,
    pub arg0: u64,
    pub arg1: u64,
    pub arg2: u64,
    pub arg3: u64,
    pub arg4: u64,
    pub arg5: u64,
    pub retval: u64,
}

/// Relies on nix::sys::ptrace::getregs: the saved registers of a stopped
/// tracee, or None when the kernel refuses (for instance because the
/// process exited between the wait and this read). Which values come
/// back depends on the tracee, so nothing more is promised.
#[verifier::external_body]
pub(crate) fn get_regs(pid: i32) -> Option<RegisterSnapshot> {
    match nix::sys::ptrace::getregs(nix::unistd::Pid::from_raw(pid)) {
        Ok(r) => Some(RegisterSnapshot {
            syscall_nr: r.orig_rax,
            arg0: r.rdi,
            arg1: r.rsi,
            arg2: r.rdx,
            arg3: r.r10,
            arg4: r.r8,
            arg5: r.r9,
            retval: r.rax,
        }),
        Err(_) => None,
    }
}

/// Relies on nix::sys::ptrace::read: one word of the tracee's memory at
/// the given address, or None when the address is unmapped or the
/// process is gone. The value depends on the tracee's memory, so nothing
/// more is promised.
#[verifier::external_body]
pub(crate) fn peek_word(pid: i32, addr: u64) -> Option<u64> {
    let p = nix::unistd::Pid::from_raw(pid);
    match nix::sys::ptrace::read(p, addr as usize as nix::sys::ptrace::AddressType) {
        Ok(w) => Some(w as u64),
        Err(_) => None,
    }
}

/// The bytes of `w` in little-endian order, as they sit in the tracee's
/// memory.
pub open spec fn le_bytes(w: u64) -> Seq<u8> {
    seq![
        (w & 0xff) as u8,
        ((w >> 8) & 0xff) as u8,
        ((w >> 16) & 0xff) as u8,
        ((w >> 24) & 0xff) as u8,
        ((w >> 32) & 0xff) as u8,
        ((w >> 40) & 0xff) as u8,
        ((w >> 48) & 0xff) as u8,
        ((w >> 56) & 0xff) as u8,
    ]
}

/// Splits one remote word into its eight little-endian bytes.
pub fn word_to_bytes(w: u64) -> (r: Vec<u8>)
    ensures
        r@ == le_bytes(w),
{
    let mut r: Vec<u8> = Vec::new();
    r.push((w & 0xff) as u8);
    r.push(((w >> 8) & 0xff) as u8);
    r.push(((w >> 16) & 0xff) as u8);
    r.push(((w >> 24) & 0xff) as u8);
    r.push(((w >> 32) & 0xff) as u8);
    r.push(((w >> 40) & 0xff) as u8);
    r.push(((w >> 48) & 0xff) as u8);
    r.push(((w >> 56) & 0xff) as u8);
    proof {
        assert(r@ =~= le_bytes(w));
    }
    r
}

/// True when the sequence holds a NUL byte somewhere.
pub open spec fn contains_nul(s: Seq<u8>) -> bool {
    exists|i: int| 0 <= i < s.len() && s[i] == 0
}

/// The bytes strictly before the first NUL; the whole sequence when no
/// NUL occurs.
pub open spec fn prefix_before_nul(s: Seq<u8>) -> Seq<u8>
    decreases s.len(),
{
    if s.len() == 0 {
        s
    } else if s[0] == 0 {
        Seq::empty()
    } else {
        seq![s[0]] + prefix_before_nul(s.drop_first())
    }
}

/// Once a NUL has been seen, whatever lies beyond it in memory cannot
/// change the decoded string.
pub proof fn lemma_scan_ignores_tail(s: Seq<u8>, t: Seq<u8>)
    requires
        contains_nul(s),
    ensures
        prefix_before_nul(s + t) == prefix_before_nul(s),
    decreases s.len(),
{
    if s.len() == 0 {
        assert(false);
    } else if s[0] == 0 {
        assert((s + t)[0] == 0);
    } else {
        assert(contains_nul(s.drop_first())) by {
            let i = choose|i: int| 0 <= i < s.len() && s[i] == 0;
            assert(s.drop_first()[i - 1] == 0);
        }
        lemma_scan_ignores_tail(s.drop_first(), t);
        assert((s + t).drop_first() =~= s.drop_first() + t);
        assert(prefix_before_nul(s + t) =~= prefix_before_nul(s));
    }
}

/// The decoded prefix is exactly the bytes before the first NUL: it
/// never holds a NUL itself, and appending it to what it cut off gives
/// back a prefix of the original.
pub proof fn lemma_prefix_before_nul_clean(s: Seq<u8>)
    ensures
        !contains_nul(prefix_before_nul(s)),
        prefix_before_nul(s).len() <= s.len(),
        prefix_before_nul(s) == s.take(prefix_before_nul(s).len() as int),
    decreases s.len(),
{
    if s.len() == 0 {
    } else if s[0] == 0 {
        assert(prefix_before_nul(s) =~= s.take(0));
    } else {
        lemma_prefix_before_nul_clean(s.drop_first());
        let p = prefix_before_nul(s);
        let q = prefix_before_nul(s.drop_first());
        assert(p =~= seq![s[0]] + q);
        assert(!contains_nul(p)) by {
            if contains_nul(p) {
                let i = choose|i: int| 0 <= i < p.len() && p[i] == 0;
                assert(i != 0);
                assert(q[i - 1] == 0);
            }
        }
        assert(p =~= s.take(p.len() as int)) by {
            assert(q == s.drop_first().take(q.len() as int));
        }
    }
}

/// The bytes before the first NUL, scanning from `from`; used for the
/// path field of a Unix-domain socket address.
pub fn take_before_nul(v: &Vec<u8>, from: usize) -> (r: Vec<u8>)
    requires
        from <= v@.len(),
    ensures
        r@ == prefix_before_nul(v@.skip(from as int)),
{
    let mut r: Vec<u8> = Vec::new();
    let mut i: usize = from;
    while i < v.len()
        invariant
            from <= i <= v@.len(),
            r@ =~= v@.subrange(from as int, i as int),
            forall|j: int| 0 <= j < r@.len() ==> r@[j] != 0,
        decreases v@.len() - i,
    {
        let b = v[i];
        if b == 0 {
            proof {
                let s = v@.skip(from as int);
                assert(r@ =~= s.take(r@.len() as int));
                assert(s[r@.len() as int] == v@[i as int]);
                lemma_clean_prefix_is_scan(s, r@);
            }
            return r;
        }
        r.push(b);
        i += 1;
    }
    proof {
        assert(r@ =~= v@.skip(from as int));
        lemma_no_nul_scans_whole(r@);
    }
    r
}

/// The byte stream that a sequence of remote words lays out in memory.
pub open spec fn words_bytes(ws: Seq<u64>) -> Seq<u8>
    decreases ws.len(),
{
    if ws.len() == 0 {
        Seq::empty()
    } else {
        le_bytes(ws[0]) + words_bytes(ws.drop_first())
    }
}

/// Reading one more word appends its bytes to the stream.
pub proof fn lemma_words_bytes_push(ws: Seq<u64>, w: u64)
    ensures
        words_bytes(ws.push(w)) == words_bytes(ws) + le_bytes(w),
        words_bytes(ws).len() == 8 * ws.len(),
    decreases ws.len(),
{
    if ws.len() == 0 {
        assert(ws.push(w).drop_first() =~= ws);
        assert(words_bytes(ws.push(w)) =~= words_bytes(ws) + le_bytes(w));
    } else {
        lemma_words_bytes_push(ws.drop_first(), w);
        assert(ws.push(w).drop_first() =~= ws.drop_first().push(w));
        assert(words_bytes(ws.push(w)) =~= words_bytes(ws) + le_bytes(w));
    }
}

/// A decoded string capped for display.
pub open spec fn clip(s: Seq<u8>) -> Seq<u8> {
    if s.len() <= PATH_DISPLAY_MAX {
        s
    } else {
        s.take(PATH_DISPLAY_MAX as int)
    }
}

/// What a bounded scan of the tracee's memory produced.
pub enum RemoteString {
    /// A NUL terminator was found; the bytes before it, capped for
    /// display.
    Terminated(Vec<u8>),
    /// No NUL within the scan bound; the bytes read, capped for display.
    Unterminated(Vec<u8>),
    /// A word read failed: the address was unmapped or the process gone.
    Fault,
}

/// Scans the tracee's memory at `addr` word by word for a
/// NUL-terminated string. The scan stops at the first NUL, after
/// `MAX_SCAN_WORDS` words even when no NUL ever comes, or at the first
/// failed read. The ghost half of the result is the words that were
/// read: a found terminator yields exactly the bytes of that stream
/// before its first NUL, capped for display, and an unterminated scan
/// yields the whole capped stream; the decoded bytes never hold a NUL.
pub fn read_remote_string(pid: i32, addr: u64) -> (r: (RemoteString, Ghost<Seq<u64>>))
    ensures
        match r.0 {
            RemoteString::Terminated(b) => contains_nul(words_bytes(r.1@)) && b@ == clip(
                prefix_before_nul(words_bytes(r.1@)),
            ) && !contains_nul(b@) && b@.len() <= PATH_DISPLAY_MAX,
            RemoteString::Unterminated(b) => !contains_nul(words_bytes(r.1@)) && r.1@.len()
                == MAX_SCAN_WORDS && b@ == words_bytes(r.1@) && b@.len() == PATH_DISPLAY_MAX,
            RemoteString::Fault => true,
        },
{
    let mut buf: Vec<u8> = Vec::new();
    let mut words: usize = 0;
    let ghost mut ws: Seq<u64> = Seq::empty();
    while words < MAX_SCAN_WORDS
        invariant
            words <= MAX_SCAN_WORDS,
            ws.len() == words,
            buf@ == words_bytes(ws),
            buf@.len() == 8 * words,
            forall|j: int| 0 <= j < buf@.len() ==> buf@[j] != 0,
        decreases MAX_SCAN_WORDS - words,
    {
        let w = match peek_word(pid, addr.wrapping_add((words as u64) * 8)) {
            Some(w) => w,
            None => {
                return (RemoteString::Fault, Ghost(ws));
            },
        };
        let ghost prior = ws;
        proof {
            ws = ws.push(w);
            lemma_words_bytes_push(prior, w);
        }
        let bytes = word_to_bytes(w);
        let mut k: usize = 0;
        while k < 8
            invariant
                k <= 8,
                bytes@ == le_bytes(w),
                words < MAX_SCAN_WORDS,
                ws == prior.push(w),
                ws.len() == words + 1,
                words_bytes(ws) == words_bytes(prior) + le_bytes(w),
                buf@ == words_bytes(prior) + bytes@.take(k as int),
                buf@.len() == 8 * words + k,
                forall|j: int| 0 <= j < buf@.len() ==> buf@[j] != 0,
            decreases 8 - k,
        {
            if bytes[k] == 0 {
                proof {
                    let stream = words_bytes(ws);
                    assert(buf@ =~= stream.take(buf@.len() as int));
                    assert(stream[buf@.len() as int] == bytes@[k as int]);
                    lemma_clean_prefix_is_scan(stream, buf@);
                }
                if buf.len() > PATH_DISPLAY_MAX {
                    buf.truncate(PATH_DISPLAY_MAX);
                }
                return (RemoteString::Terminated(buf), Ghost(ws));
            }
            buf.push(bytes[k]);
            proof {
                assert(buf@ =~= words_bytes(prior) + bytes@.take(k + 1));
            }
            k += 1;
        }
        proof {
            assert(buf@ =~= words_bytes(ws));
        }
        words += 1;
    }
    proof {
        assert(!contains_nul(words_bytes(ws)));
    }
    (RemoteString::Unterminated(buf), Ghost(ws))
}

/// A requested socket-address byte length after the cap.
pub open spec fn capped_len(len: u64) -> int {
    if len as int <= SOCKADDR_MAX as int {
        len as int
    } else {
        SOCKADDR_MAX as int
    }
}

/// Reads exactly `len` bytes from the tracee's memory at `addr`, reading
/// enough whole words to cover them; `len` is capped at `SOCKADDR_MAX`.
/// The ghost half of the result is the words that were read: a
/// successful read hands back exactly the first `capped_len` bytes of
/// that stream. A zero-length request always succeeds; None comes only
/// from a failed word read.
pub fn read_remote_buf(pid: i32, addr: u64, len: u64) -> (r: (Option<Vec<u8>>, Ghost<Seq<u64>>))
    ensures
        len == 0 ==> r.0 is Some,
        r.0 is Some ==> 8 * r.1@.len() >= capped_len(len) && r.0->0@ == words_bytes(r.1@).take(
            capped_len(len),
        ) && r.0->0@.len() == capped_len(len),
{
    let want: usize = if len > SOCKADDR_MAX as u64 {
        SOCKADDR_MAX
    } else {
        len as usize
    };
    let mut buf: Vec<u8> = Vec::new();
    let mut words: usize = 0;
    let ghost mut ws: Seq<u64> = Seq::empty();
    while 8 * words < want
        invariant
            want <= SOCKADDR_MAX,
            want as int == capped_len(len),
            words <= 16,
            ws.len() == words,
            buf@ == words_bytes(ws),
            buf@.len() == 8 * words,
        decreases want + 8 - 8 * words,
    {
        let w = match peek_word(pid, addr.wrapping_add((words as u64) * 8)) {
            Some(w) => w,
            None => {
                return (None, Ghost(ws));
            },
        };
        proof {
            lemma_words_bytes_push(ws, w);
            ws = ws.push(w);
        }
        let mut bytes = word_to_bytes(w);
        buf.append(&mut bytes);
        words += 1;
    }
    buf.truncate(want);
    proof {
        assert(buf@ == words_bytes(ws).take(want as int));
    }
    (Some(buf), Ghost(ws))
}

/// A NUL-free sequence scans to itself.
pub proof fn lemma_no_nul_scans_whole(s: Seq<u8>)
    requires
        forall|j: int| 0 <= j < s.len() ==> s[j] != 0,
    ensures
        prefix_before_nul(s) == s,
    decreases s.len(),
{
    if s.len() > 0 {
        lemma_no_nul_scans_whole(s.drop_first());
        assert(prefix_before_nul(s) =~= s);
    }
}

/// When `p` is a NUL-free prefix of `s` and the byte after it is NUL,
/// `p` is exactly what the scan of `s` yields.
proof fn lemma_clean_prefix_is_scan(s: Seq<u8>, p: Seq<u8>)
    requires
        p.len() < s.len(),
        p == s.take(p.len() as int),
        forall|j: int| 0 <= j < p.len() ==> p[j] != 0,
        s[p.len() as int] == 0,
    ensures
        prefix_before_nul(s) == p,
    decreases p.len(),
{
    if p.len() == 0 {
        assert(s[0] == 0);
        assert(prefix_before_nul(s) =~= p);
    } else {
        assert(s[0] == p[0]);
        assert(p.drop_first() =~= s.drop_first().take(p.len() - 1));
        assert(s.drop_first()[p.len() - 1] == s[p.len() as int]);
        lemma_clean_prefix_is_scan(s.drop_first(), p.drop_first());
        assert(prefix_before_nul(s) =~= seq![s[0]] + prefix_before_nul(s.drop_first()));
        assert(prefix_before_nul(s) =~= p);
    }
}

} // verus!
