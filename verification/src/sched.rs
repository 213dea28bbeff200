use vstd::prelude::*;

use crate::errno::Errno;
use crate::errno::EINVAL;
use crate::unistd::Pid;
use crate::Error;

verus! {

// The kernel's encoding of the process-creation sharing flags, one bit each.
pub const CLONE_VM: u32 = 0x0000_0100;
pub const CLONE_FS: u32 = 0x0000_0200;
pub const CLONE_FILES: u32 = 0x0000_0400;
pub const CLONE_SIGHAND: u32 = 0x0000_0800;
pub const CLONE_PTRACE: u32 = 0x0000_2000;
pub const CLONE_VFORK: u32 = 0x0000_4000;
pub const CLONE_PARENT: u32 = 0x0000_8000;
pub const CLONE_THREAD: u32 = 0x0001_0000;
pub const CLONE_NEWNS: u32 = 0x0002_0000;
pub const CLONE_SYSVSEM: u32 = 0x0004_0000;
pub const CLONE_SETTLS: u32 = 0x0008_0000;
pub const CLONE_PARENT_SETTID: u32 = 0x0010_0000;
pub const CLONE_CHILD_CLEARTID: u32 = 0x0020_0000;
pub const CLONE_DETACHED: u32 = 0x0040_0000;
pub const CLONE_UNTRACED: u32 = 0x0080_0000;
pub const CLONE_CHILD_SETTID: u32 = 0x0100_0000;
pub const CLONE_NEWCGROUP: u32 = 0x0200_0000;
pub const CLONE_NEWUTS: u32 = 0x0400_0000;
pub const CLONE_NEWIPC: u32 = 0x0800_0000;
pub const CLONE_NEWUSER: u32 = 0x1000_0000;
pub const CLONE_NEWPID: u32 = 0x2000_0000;
pub const CLONE_NEWNET: u32 = 0x4000_0000;
pub const CLONE_IO: u32 = 0x8000_0000;

/// Every recognized flag bit; a raw value with any bit outside this mask
/// is rejected at construction.
pub const CLONE_FLAGS_MASK: u32 = CLONE_VM | CLONE_FS | CLONE_FILES | CLONE_SIGHAND | CLONE_PTRACE
    | CLONE_VFORK | CLONE_PARENT | CLONE_THREAD | CLONE_NEWNS | CLONE_SYSVSEM | CLONE_SETTLS
    | CLONE_PARENT_SETTID | CLONE_CHILD_CLEARTID | CLONE_DETACHED | CLONE_UNTRACED
    | CLONE_CHILD_SETTID | CLONE_NEWCGROUP | CLONE_NEWUTS | CLONE_NEWIPC | CLONE_NEWUSER
    | CLONE_NEWPID | CLONE_NEWNET | CLONE_IO;

/// A set of process-creation sharing flags, stored bit-for-bit in the
/// kernel's own encoding. Values built through this type hold recognized
/// bits only.
#[derive(Clone, Copy, Debug, PartialEq, Eq, Structural)]
pub struct CloneFlags {
    bits: u32,
}

/// What construction from a raw value yields: the value itself when every
/// set bit is recognized, nothing otherwise.
pub closed spec fn spec_from_bits(bits: u32) -> Option<CloneFlags> {
    if bits & !CLONE_FLAGS_MASK == 0 {
        Some(CloneFlags { bits })
    } else {
        None
    }
}

impl CloneFlags {
    /// The raw bit pattern this set stands for.
    pub closed spec fn spec_bits(self) -> u32 {
        self.bits
    }

    /// A well-formed set holds recognized bits only.
    pub open spec fn wf(self) -> bool {
        self.spec_bits() & !CLONE_FLAGS_MASK == 0
    }

    /// The empty set: share nothing beyond what the kernel always shares.
    pub fn empty() -> (r: CloneFlags)
        ensures
            r.spec_bits() == 0u32,
            r.wf(),
    {
        proof {
            assert(0u32 & !CLONE_FLAGS_MASK == 0) by (bit_vector);
        }
        CloneFlags { bits: 0 }
    }

    /// Builds a flag set from a raw integer; a value with any unrecognized
    /// bit is rejected.
    pub fn from_bits(bits: u32) -> (r: Option<CloneFlags>)
        ensures
            r == spec_from_bits(bits),
            bits & !CLONE_FLAGS_MASK == 0 <==> r is Some,
            r matches Some(f) ==> f.spec_bits() == bits && f.wf(),
    {
        if bits & !CLONE_FLAGS_MASK == 0 {
            Some(CloneFlags { bits })
        } else {
            None
        }
    }

    /// The raw integer the kernel expects: exactly the bits this set was
    /// built from.
    pub fn bits(self) -> (r: u32)
        ensures
            r == self.spec_bits(),
    {
        self.bits
    }

    /// Whether every flag of `other` is present in `self`.
    pub fn contains(self, other: CloneFlags) -> (r: bool)
        ensures
            r == (self.spec_bits() & other.spec_bits() == other.spec_bits()),
    {
        self.bits & other.bits == other.bits
    }

    /// The bitwise-OR composition of two flag sets.
    pub fn union(self, other: CloneFlags) -> (r: CloneFlags)
        ensures
            r.spec_bits() == self.spec_bits() | other.spec_bits(),
            self.wf() && other.wf() ==> r.wf(),
    {
        proof {
            let a = self.bits;
            let b = other.bits;
            assert(a & !CLONE_FLAGS_MASK == 0 && b & !CLONE_FLAGS_MASK == 0 ==> (a | b)
                & !CLONE_FLAGS_MASK == 0) by (bit_vector);
        }
        CloneFlags { bits: self.bits | other.bits }
    }

    /// Adds every flag of `other` to `self` in place.
    pub fn insert(&mut self, other: CloneFlags)
        ensures
            final(self).spec_bits() == old(self).spec_bits() | other.spec_bits(),
            old(self).wf() && other.wf() ==> final(self).wf(),
    {
        let joined = self.union(other);
        self.bits = joined.bits();
    }
}

/// Number of 64-bit words backing a CPU set.
pub const CPU_SET_WORDS: usize = 16;

/// Number of addressable CPU indices in a CPU set: one bit per index.
pub const CPU_SET_BITS: usize = CPU_SET_WORDS * 64;

/// Whether bit `i` of the word `w` is set.
pub open spec fn word_bit(w: u64, i: u64) -> bool {
    (w >> i) & 1u64 == 1u64
}

/// A fixed-size mask of CPU indices: one bit per CPU, created all clear,
/// mutated in place, and read by index. Every access is bounds-checked
/// against the mask's bit capacity.
#[derive(Clone, Debug)]
pub struct CpuSet {
    words: Vec<u64>,
}

impl View for CpuSet {
    type V = Seq<bool>;

    /// A CPU set is a sequence of `CPU_SET_BITS` bits; index `i` lives in
    /// bit `i % 64` of word `i / 64`.
    closed spec fn view(&self) -> Seq<bool> {
        Seq::new(CPU_SET_BITS as nat, |i: int| word_bit(self.words@[i / 64], (i % 64) as u64))
    }
}

proof fn lemma_word_bit_zero(b: u64)
    by (bit_vector)
    requires
        b < 64,
    ensures
        (0u64 >> b) & 1u64 == 0u64,
{
}

proof fn lemma_set_bit_same(w: u64, b: u64)
    by (bit_vector)
    requires
        b < 64,
    ensures
        ((w | (1u64 << b)) >> b) & 1u64 == 1u64,
{
}

proof fn lemma_set_bit_other(w: u64, b: u64, c: u64)
    by (bit_vector)
    requires
        b < 64,
        c < 64,
        b != c,
    ensures
        ((w | (1u64 << b)) >> c) & 1u64 == (w >> c) & 1u64,
{
}

proof fn lemma_clear_bit_same(w: u64, b: u64)
    by (bit_vector)
    requires
        b < 64,
    ensures
        ((w & !(1u64 << b)) >> b) & 1u64 == 0u64,
{
}

proof fn lemma_clear_bit_other(w: u64, b: u64, c: u64)
    by (bit_vector)
    requires
        b < 64,
        c < 64,
        b != c,
    ensures
        ((w & !(1u64 << b)) >> c) & 1u64 == (w >> c) & 1u64,
{
}

impl CpuSet {
    /// A well-formed set is backed by exactly `CPU_SET_WORDS` words.
    pub closed spec fn wf(self) -> bool {
        self.words@.len() == CPU_SET_WORDS
    }

    /// A zero-initialized set: no CPU index is present.
    pub fn new() -> (r: CpuSet)
        ensures
            r.wf(),
            r@.len() == CPU_SET_BITS,
            forall|i: int| 0 <= i < CPU_SET_BITS ==> !(#[trigger] r@[i]),
    {
        let mut words: Vec<u64> = Vec::new();
        while words.len() < CPU_SET_WORDS
            invariant
                words@.len() <= CPU_SET_WORDS,
                forall|j: int| 0 <= j < words@.len() ==> #[trigger] words@[j] == 0u64,
            decreases CPU_SET_WORDS - words@.len(),
        {
            words.push(0u64);
        }
        let r = CpuSet { words };
        proof {
            assert forall|i: int| 0 <= i < CPU_SET_BITS implies !(#[trigger] r@[i]) by {
                lemma_word_bit_zero((i % 64) as u64);
            }
        }
        r
    }

    /// Whether the bit at `field` is set. An index at or beyond the bit
    /// capacity is rejected with `EINVAL` before any read.
    pub fn is_set(&self, field: usize) -> (r: Result<bool, Error>)
        requires
            self.wf(),
        ensures
            field < CPU_SET_BITS ==> r == Result::<bool, Error>::Ok(self@[field as int]),
            field >= CPU_SET_BITS ==> r == Result::<bool, Error>::Err(
                Error::Sys((Errno { code: EINVAL })),
            ),
    {
        if field >= CPU_SET_BITS {
            Err(Error::Sys(Errno { code: EINVAL }))
        } else {
            let w = self.words[field / 64];
            let b = (field % 64) as u64;
            Ok((w >> b) & 1u64 == 1u64)
        }
    }

    /// Sets the bit at `field` to 1, leaving every other bit unchanged. An
    /// index at or beyond the bit capacity is rejected with `EINVAL` and
    /// the set is untouched.
    pub fn set(&mut self, field: usize) -> (r: Result<(), Error>)
        requires
            old(self).wf(),
        ensures
            final(self).wf(),
            field < CPU_SET_BITS ==> r == Result::<(), Error>::Ok(()) && final(self)@ == old(
                self,
            )@.update(field as int, true),
            field >= CPU_SET_BITS ==> r == Result::<(), Error>::Err(
                Error::Sys((Errno { code: EINVAL })),
            ) && *final(self) == *old(self),
    {
        if field >= CPU_SET_BITS {
            Err(Error::Sys(Errno { code: EINVAL }))
        } else {
            let wi: usize = field / 64;
            let b = (field % 64) as u64;
            let w = self.words[wi];
            self.words.set(wi, w | (1u64 << b));
            proof {
                assert forall|i: int| 0 <= i < CPU_SET_BITS implies #[trigger] self@[i] == old(
                    self,
                )@.update(field as int, true)[i] by {
                    let c = (i % 64) as u64;
                    if i == field {
                        lemma_set_bit_same(w, b);
                    } else if i / 64 == wi {
                        lemma_set_bit_other(w, b, c);
                    }
                }
                assert(self@ =~= old(self)@.update(field as int, true));
            }
            Ok(())
        }
    }

    /// Clears the bit at `field` to 0, leaving every other bit unchanged.
    /// An index at or beyond the bit capacity is rejected with `EINVAL`
    /// and the set is untouched.
    pub fn unset(&mut self, field: usize) -> (r: Result<(), Error>)
        requires
            old(self).wf(),
        ensures
            final(self).wf(),
            field < CPU_SET_BITS ==> r == Result::<(), Error>::Ok(()) && final(self)@ == old(
                self,
            )@.update(field as int, false),
            field >= CPU_SET_BITS ==> r == Result::<(), Error>::Err(
                Error::Sys((Errno { code: EINVAL })),
            ) && *final(self) == *old(self),
    {
        if field >= CPU_SET_BITS {
            Err(Error::Sys(Errno { code: EINVAL }))
        } else {
            let wi: usize = field / 64;
            let b = (field % 64) as u64;
            let w = self.words[wi];
            self.words.set(wi, w & !(1u64 << b));
            proof {
                assert forall|i: int| 0 <= i < CPU_SET_BITS implies #[trigger] self@[i] == old(
                    self,
                )@.update(field as int, false)[i] by {
                    let c = (i % 64) as u64;
                    if i == field {
                        lemma_clear_bit_same(w, b);
                    } else if i / 64 == wi {
                        lemma_clear_bit_other(w, b, c);
                    }
                }
                assert(self@ =~= old(self)@.update(field as int, false));
            }
            Ok(())
        }
    }
}

/// Alignment, in bytes, required of a stack pointer: the native word size.
pub const STACK_ALIGN: usize = 8;

/// The greatest word-aligned address at or below the top of the byte
/// region that starts at `base` and is `len` bytes long.
pub open spec fn spec_aligned_stack_top(base: int, len: int) -> int {
    (base + len) - ((base + len) % (STACK_ALIGN as int))
}

/// Where a new call stack begins inside the region `[base, base + len)`:
/// stacks grow downward, so the top of the region is taken and then moved
/// down to the nearest word-aligned address.
pub fn aligned_stack_top(base: usize, len: usize) -> (r: usize)
    requires
        base + len <= usize::MAX,
    ensures
        r == spec_aligned_stack_top(base as int, len as int),
        r % STACK_ALIGN == 0,
        r <= base + len,
        base + len < r + STACK_ALIGN,
        len >= STACK_ALIGN ==> base < r,
{
    let top: usize = base + len;
    let r = top - top % STACK_ALIGN;
    proof {
        assert((top - top % 8) % 8 == 0) by (bit_vector);
    }
    r
}

/// The flag word handed to the process-creation primitive: the sharing
/// flags OR'd with the child-exit signal number, or the flags alone when
/// no signal is requested.
pub fn combined_bits(flags: CloneFlags, signal: Option<u32>) -> (r: u32)
    ensures
        signal matches Some(s) ==> r == (flags.spec_bits() | s),
        signal is None ==> r == flags.spec_bits(),
{
    match signal {
        Some(s) => flags.bits() | s,
        None => flags.bits(),
    }
}

/// Translates the raw return value of the process-creation primitive:
/// `-1` means failure with the errno read after the call; any other value
/// is the new child's process identifier.
pub fn clone_result(res: i32, err: i32) -> (r: Result<Pid, Error>)
    ensures
        res == -1 ==> r == Result::<Pid, Error>::Err(Error::Sys((Errno { code: err }))),
        res != -1 ==> r == Result::<Pid, Error>::Ok((Pid { raw: res })),
{
    if res == -1 {
        Err(Error::Sys(Errno { code: err }))
    } else {
        Ok(Pid::from_raw(res))
    }
}

/// Law: writing one index of a bit sequence is observed at that index and
/// interferes with no other index.
pub proof fn lemma_bit_update_independent(s: Seq<bool>, i: int, v: bool, j: int)
    requires
        0 <= i < s.len(),
        0 <= j < s.len(),
    ensures
        s.update(i, v)[i] == v,
        i != j ==> s.update(i, v)[j] == s[j],
{
}

/// Law: a raw value made of recognized bits only round-trips exactly;
/// construction accepts it and hands back a set whose raw form is the
/// very same integer.
pub proof fn lemma_from_bits_round_trip(bits: u32)
    requires
        bits & !CLONE_FLAGS_MASK == 0,
    ensures
        spec_from_bits(bits) matches Some(f) && f.spec_bits() == bits,
{
}

} // verus!
