use vstd::prelude::*;
use crate::method::Profile;
use crate::text::{decimal, decimal_of};
use vstd::string::{StringExecFns, StrSliceExecFns};
use rand::RngCore;

verus! {

/// Progress is kept in millionths: this value stands for a completed job.
pub const FULL_PROGRESS: u64 = 1_000_000;

/// Progress recorded when a job starts running.
pub const START_PROGRESS: u64 = 50_000;

/// Progress at the end of the last pass of any profile: a running job
/// never stands beyond it.
pub const RUNNING_CEILING: u64 = 950_000;

/// Bytes written per chunk.
pub const CHUNK_SIZE: u64 = 1_048_576;

/// What a pass writes.
#[derive(Clone, Copy, Debug, PartialEq, Eq, Structural)]
pub enum Pattern {
    Zero,
    Random,
}

/// One sweep over the whole target, and the progress span it covers:
/// from `base` before its first byte to `base + span` after its last.
#[derive(Clone, Copy, Debug, PartialEq, Eq, Structural)]
pub struct Pass {
    pub pattern: Pattern,
    pub base: u64,
    pub span: u64,
}

/// The passes of a profile, in order.
pub open spec fn spec_passes(p: Profile) -> Seq<Pass> {
    match p {
        Profile::Quick => seq![Pass { pattern: Pattern::Zero, base: 100_000, span: 600_000 }],
        Profile::Secure => seq![
            Pass { pattern: Pattern::Random, base: 100_000, span: 200_000 },
            Pass { pattern: Pattern::Zero, base: 400_000, span: 300_000 },
            Pass { pattern: Pattern::Random, base: 700_000, span: 250_000 },
        ],
    }
}

/// The passes of a profile, in order.
pub fn passes(p: Profile) -> (r: Vec<Pass>)
    ensures
        r@ == spec_passes(p),
{
    let mut v: Vec<Pass> = Vec::new();
    match p {
        Profile::Quick => {
            v.push(Pass { pattern: Pattern::Zero, base: 100_000, span: 600_000 });
        },
        Profile::Secure => {
            v.push(Pass { pattern: Pattern::Random, base: 100_000, span: 200_000 });
            v.push(Pass { pattern: Pattern::Zero, base: 400_000, span: 300_000 });
            v.push(Pass { pattern: Pattern::Random, base: 700_000, span: 250_000 });
        },
    }
    assert(v@ =~= spec_passes(p));
    v
}

/// Progress after `written` of `size` bytes of a pass: `base + span * written / size`,
/// rounded down; an empty target counts as fully written.
pub open spec fn spec_progress(pass: Pass, written: nat, size: nat) -> nat {
    if size == 0 {
        pass.base as nat + pass.span as nat
    } else {
        pass.base as nat + (pass.span as nat * written) / size
    }
}

proof fn lemma_scaled_le(span: nat, written: nat, size: nat)
    requires
        written <= size,
        size > 0,
    ensures
        (span * written) / size <= span,
        (span * written) / size <= (span * size) / size,
{
    assert(span * written <= span * size) by (nonlinear_arith)
        requires written <= size;
    assert((span * size) / size == span) by (nonlinear_arith)
        requires size > 0;
    lemma_div_monotone(span * written, span * size, size);
}

proof fn lemma_div_monotone(a: nat, b: nat, d: nat)
    requires
        a <= b,
        d > 0,
    ensures
        a / d <= b / d,
{
    vstd::arithmetic::div_mod::lemma_div_is_ordered(a as int, b as int, d as int);
}

/// Progress within a pass never decreases as more bytes are written, and
/// stays within the pass's span.
pub proof fn lemma_progress_within_pass(pass: Pass, w1: nat, w2: nat, size: nat)
    requires
        w1 <= w2 <= size,
    ensures
        spec_progress(pass, w1, size) <= spec_progress(pass, w2, size),
        pass.base <= spec_progress(pass, w1, size) <= pass.base + pass.span,
        spec_progress(pass, size, size) == pass.base + pass.span,
{
    let s = pass.span as nat;
    if size > 0 {
        assert(s * w1 <= s * w2) by (nonlinear_arith)
            requires w1 <= w2;
        lemma_div_monotone(s * w1, s * w2, size);
        lemma_scaled_le(s, w1, size);
        assert((s * size) / size == s) by (nonlinear_arith)
            requires size > 0;
    }
}

/// Progress after writing `written` of `size` bytes in `pass`.
pub fn pass_progress(pass: Pass, written: u64, size: u64) -> (r: u64)
    requires
        written <= size,
        pass.base + pass.span <= FULL_PROGRESS,
    ensures
        r == spec_progress(pass, written as nat, size as nat),
        pass.base <= r <= pass.base + pass.span,
{
    proof {
        lemma_progress_within_pass(pass, written as nat, written as nat, size as nat);
    }
    if size == 0 {
        pass.base + pass.span
    } else {
        assert((pass.span as nat) * (written as nat) <= u64::MAX as nat * u64::MAX as nat) by (nonlinear_arith)
            requires pass.span <= u64::MAX, written <= u64::MAX;
        let prod: u128 = (pass.span as u128) * (written as u128);
        let q: u128 = prod / (size as u128);
        pass.base + q as u64
    }
}

/// A chunk of a pass that the caller is to write: `len` bytes of `pattern`
/// at byte `offset` (a pass starts again from offset zero). After it is
/// written, the job's progress is `progress` and `written` bytes of the pass
/// are done.
#[derive(Clone, Copy, Debug, PartialEq, Eq, Structural)]
pub struct Chunk {
    pub pass: usize,
    pub pattern: Pattern,
    pub offset: u64,
    pub len: u64,
    pub written: u64,
    pub progress: u64,
}

/// The cursor of a multi-pass overwrite of a target of `size` bytes.
pub struct Overwrite {
    profile: Profile,
    size: u64,
    plan: Vec<Pass>,
    pass: usize,
    written: u64,
}

impl Overwrite {
    pub closed spec fn spec_profile(&self) -> Profile {
        self.profile
    }

    pub closed spec fn spec_size(&self) -> nat {
        self.size as nat
    }

    /// The index of the pass in progress; the number of passes once done.
    pub closed spec fn spec_pass(&self) -> nat {
        self.pass as nat
    }

    /// Bytes of the current pass already handed out.
    pub closed spec fn spec_written(&self) -> nat {
        self.written as nat
    }

    pub closed spec fn wf(&self) -> bool {
        &&& self.plan@ == spec_passes(self.profile)
        &&& self.pass <= self.plan@.len()
        &&& self.written <= self.size
        &&& (self.written < self.size || self.written == 0)
        &&& (self.pass == self.plan@.len() ==> self.written == 0)
    }

    /// The progress the cursor stands at: within the current pass, or the
    /// end of the last pass once done.
    pub open spec fn spec_current(&self) -> nat {
        let ps = spec_passes(self.spec_profile());
        if self.spec_pass() < ps.len() {
            spec_progress(ps[self.spec_pass() as int], self.spec_written(), self.spec_size())
        } else {
            (ps.last().base + ps.last().span) as nat
        }
    }

    pub open spec fn is_done(&self) -> bool {
        self.spec_pass() >= spec_passes(self.spec_profile()).len()
    }

    /// A fresh overwrite: first pass, nothing written.
    pub fn new(profile: Profile, size: u64) -> (r: Overwrite)
        ensures
            r.wf(),
            r.spec_profile() == profile,
            r.spec_size() == size,
            r.spec_pass() == 0,
            r.spec_written() == 0,
    {
        Overwrite { profile, size, plan: passes(profile), pass: 0, written: 0 }
    }

    pub fn done(&self) -> (r: bool)
        requires
            self.wf(),
        ensures
            r == self.is_done(),
    {
        self.pass >= self.plan.len()
    }

    /// Hands out the next chunk and moves the cursor past it; a pass whose
    /// last byte is handed out is followed by the next pass from offset zero.
    /// An empty target gives one empty chunk per pass.
    pub fn next_chunk(&mut self) -> (r: Option<Chunk>)
        requires
            old(self).wf(),
        ensures
            final(self).wf(),
            final(self).spec_profile() == old(self).spec_profile(),
            final(self).spec_size() == old(self).spec_size(),
            old(self).is_done() ==> r.is_none() && final(self).spec_pass() == old(self).spec_pass(),
            r is Some ==> old(self).spec_current() <= r.unwrap().progress <= final(self).spec_current(),
            !old(self).is_done() ==> {
                let pass = spec_passes(old(self).spec_profile())[old(self).spec_pass() as int];
                let size = old(self).spec_size();
                let w = old(self).spec_written();
                let len = if size - w < CHUNK_SIZE { (size - w) as nat } else { CHUNK_SIZE as nat };
                &&& r is Some
                &&& r.unwrap().pass == old(self).spec_pass()
                &&& r.unwrap().pattern == pass.pattern
                &&& r.unwrap().offset == w
                &&& r.unwrap().len == len
                &&& (w < size ==> r.unwrap().len == spec_chunk_lens(size, w)[0])
                &&& r.unwrap().written == w + len
                &&& r.unwrap().progress == spec_progress(pass, w + len, size)
                &&& (w + len == size ==> final(self).spec_pass() == old(self).spec_pass() + 1
                    && final(self).spec_written() == 0)
                &&& (w + len < size ==> final(self).spec_pass() == old(self).spec_pass()
                    && final(self).spec_written() == w + len)
            },
    {
        if self.pass >= self.plan.len() {
            return None;
        }
        let pass = self.plan[self.pass];
        assert(pass.base + pass.span <= FULL_PROGRESS) by {
            assert(pass == spec_passes(self.profile)[self.pass as int]);
        }
        let rest = self.size - self.written;
        let len = if rest < CHUNK_SIZE { rest } else { CHUNK_SIZE };
        let offset = self.written;
        let now = offset + len;
        let progress = pass_progress(pass, now, self.size);
        let chunk = Chunk { pass: self.pass, pattern: pass.pattern, offset, len, written: now, progress };
        proof {
            lemma_progress_within_pass(pass, offset as nat, now as nat, self.size as nat);
            lemma_secure_three_passes(self.size as nat);
            if self.size > 0 {
                let next = self.pass + 1;
                if next < self.plan@.len() {
                    lemma_progress_within_pass(self.plan@[next as int], 0, 0, self.size as nat);
                }
            }
        }
        if now == self.size {
            self.pass = self.pass + 1;
            self.written = 0;
        } else {
            self.written = now;
        }
        Some(chunk)
    }
}

/// The label of a pass in progress messages.
pub open spec fn spec_label(profile: Profile, pass: nat) -> Seq<char> {
    match profile {
        Profile::Quick => "wiping"@,
        Profile::Secure => if pass == 0 {
            "secure pass 1"@
        } else if pass == 1 {
            "secure pass 2"@
        } else {
            "secure pass 3"@
        },
    }
}

/// The status message after `written` bytes of a pass: `<label>: <n> bytes`.
pub fn progress_message(profile: Profile, pass: usize, written: u64) -> (r: String)
    ensures
        r@ == spec_label(profile, pass as nat) + ": "@ + decimal_of(written as nat) + " bytes"@,
{
    let mut s = match profile {
        Profile::Quick => String::from_str("wiping"),
        Profile::Secure => if pass == 0 {
            String::from_str("secure pass 1")
        } else if pass == 1 {
            String::from_str("secure pass 2")
        } else {
            String::from_str("secure pass 3")
        },
    };
    s.append(": ");
    let n = decimal(written);
    s.append(n.as_str());
    s.append(" bytes");
    s
}

/// Relies on `rand_core::OsRng::try_fill_bytes` (rand 0.8): it fills the
/// buffer from the operating system's generator, or reports an error; the
/// buffer's length is unchanged either way.
#[verifier::external_body]
pub(crate) fn fill_random(buf: &mut Vec<u8>) -> (ok: bool)
    ensures
        final(buf)@.len() == old(buf)@.len(),
{
    rand::rngs::OsRng.try_fill_bytes(buf.as_mut_slice()).is_ok()
}

/// The bytes to write for a chunk of `len` bytes of `pattern`: zeros, or
/// fresh random bytes. `None` when no random bytes could be had; the chunk
/// is then skipped, as a failed write is.
pub fn chunk_bytes(pattern: Pattern, len: usize) -> (r: Option<Vec<u8>>)
    ensures
        pattern == Pattern::Zero ==> r is Some && r.unwrap()@ == Seq::new(len as nat, |i: int| 0u8),
        r is Some ==> r.unwrap()@.len() == len,
{
    let mut buf: Vec<u8> = Vec::new();
    let mut i: usize = 0;
    while i < len
        invariant
            i <= len,
            buf@ == Seq::new(i as nat, |k: int| 0u8),
        decreases len - i,
    {
        buf.push(0u8);
        i = i + 1;
        assert(buf@ =~= Seq::new(i as nat, |k: int| 0u8));
    }
    match pattern {
        Pattern::Zero => Some(buf),
        Pattern::Random => {
            if fill_random(&mut buf) {
                Some(buf)
            } else {
                None
            }
        },
    }
}

/// The quick profile is a single pass of zeros whose progress after `w` of
/// `size` bytes is `0.10 + 0.60 * w / size` (in millionths, rounded down),
/// reaching `0.70` when the pass is complete.
pub proof fn lemma_quick_single_zero_pass(w: nat, size: nat)
    requires
        w <= size,
    ensures
        spec_passes(Profile::Quick).len() == 1,
        spec_passes(Profile::Quick)[0].pattern == Pattern::Zero,
        size > 0 ==> spec_progress(spec_passes(Profile::Quick)[0], w, size) == 100_000 + (600_000 * w) / size,
        spec_progress(spec_passes(Profile::Quick)[0], size, size) == 700_000,
{
    lemma_progress_within_pass(spec_passes(Profile::Quick)[0], w, size, size);
}

/// The secure profile is three passes, random, zeros, random; their
/// completed progress is `0.30`, `0.70` and `0.95`, each pass starting no
/// lower than the previous one ended, all below the whole.
pub proof fn lemma_secure_three_passes(size: nat)
    ensures
        spec_passes(Profile::Secure).len() == 3,
        spec_passes(Profile::Secure)[0].pattern == Pattern::Random,
        spec_passes(Profile::Secure)[1].pattern == Pattern::Zero,
        spec_passes(Profile::Secure)[2].pattern == Pattern::Random,
        spec_progress(spec_passes(Profile::Secure)[0], size, size) == 300_000,
        spec_progress(spec_passes(Profile::Secure)[1], size, size) == 700_000,
        spec_progress(spec_passes(Profile::Secure)[2], size, size) == 950_000,
        spec_passes(Profile::Secure)[0].base + spec_passes(Profile::Secure)[0].span
            <= spec_passes(Profile::Secure)[1].base,
        spec_passes(Profile::Secure)[1].base + spec_passes(Profile::Secure)[1].span
            <= spec_passes(Profile::Secure)[2].base,
        spec_passes(Profile::Secure)[2].base + spec_passes(Profile::Secure)[2].span < FULL_PROGRESS,
{
    let ps = spec_passes(Profile::Secure);
    lemma_progress_within_pass(ps[0], size, size, size);
    lemma_progress_within_pass(ps[1], size, size, size);
    lemma_progress_within_pass(ps[2], size, size, size);
}

/// The chunk lengths a pass hands out from byte `w` on: whole chunks, and a
/// shorter last one, until the end of the target.
pub open spec fn spec_chunk_lens(size: nat, w: nat) -> Seq<nat>
    decreases size - w,
{
    if w >= size {
        Seq::empty()
    } else {
        let len = if size - w < CHUNK_SIZE { (size - w) as nat } else { CHUNK_SIZE as nat };
        seq![len] + spec_chunk_lens(size, w + len)
    }
}

/// The sum of a sequence of lengths.
pub open spec fn spec_total(s: Seq<nat>) -> nat
    decreases s.len(),
{
    if s.len() == 0 {
        0
    } else {
        s[0] + spec_total(s.drop_first())
    }
}

/// A pass started at byte `w` writes exactly the `size - w` bytes that are
/// left: a pass from the start covers the whole target, once.
pub proof fn lemma_pass_covers_target(size: nat, w: nat)
    requires
        w <= size,
    ensures
        spec_total(spec_chunk_lens(size, w)) == size - w,
    decreases size - w,
{
    if w < size {
        let len = if size - w < CHUNK_SIZE { (size - w) as nat } else { CHUNK_SIZE as nat };
        lemma_pass_covers_target(size, w + len);
        let s = spec_chunk_lens(size, w);
        assert(s.drop_first() =~= spec_chunk_lens(size, w + len));
    }
}

} // verus!
