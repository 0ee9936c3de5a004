//! Queue-name normalization.
//!
//! The kernel wants a queue name as a NUL-terminated C string beginning with
//! exactly one `/`. Callers hand in a flexible byte string: the leading slash
//! may be missing and a trailing NUL may or may not be present. This module
//! turns the caller's form into the kernel's form: one trailing NUL is
//! absorbed, a name still holding a NUL after that is rejected, and a
//! fixed-size stack buffer is chosen over a heap allocation for short names
//! on the hot open/unlink path.
//!
//! Only the trailing-NUL / leading-slash shape is enforced here. The "no
//! further slash" rule of well-formed kernel names is left to the kernel,
//! which reports a permission error for names like `/a/b`.

use vstd::prelude::*;
use vstd::slice::slice_subrange;
use crate::error::Error;

verus! {

/// The byte `b'/'`.
pub const SLASH: u8 = 47;

/// Size of the stack buffer used for short names; names whose stripped form
/// is longer than `CSTR_BUF_SIZE - 2` take the allocating path.
pub const CSTR_BUF_SIZE: usize = 32;

/// The caller's name with one leading slash removed, if there is one.
pub open spec fn stripped(n: Seq<u8>) -> Seq<u8> {
    if n.len() > 0 && n[0] == SLASH {
        n.subrange(1, n.len() as int)
    } else {
        n
    }
}

/// Whether a caller-supplied name can be normalized at all: it must carry no
/// NUL byte. A NUL anywhere in the name would end the C string early, so it
/// is treated as a programming error and rejected, never silently truncated.
pub open spec fn name_ok(n: Seq<u8>) -> bool {
    forall|i: int| 0 <= i < n.len() ==> n[i] != 0
}

/// The kernel form of a caller-supplied name, without the terminating NUL.
///
/// One leading slash is stripped and a slash is prepended again, so `"q"` and
/// `"/q"` both become `"/q"`. On the allocating path the slash is only
/// prepended when missing, so a stripped form that still begins with a slash
/// (the caller wrote `"//..."`) is kept as it stands there.
pub open spec fn kernel_name_of(n: Seq<u8>) -> Seq<u8> {
    let s = stripped(n);
    if s.len() > CSTR_BUF_SIZE - 2 && s.len() > 0 && s[0] == SLASH {
        s
    } else {
        seq![SLASH].add(s)
    }
}

/// A normalized queue name ready for the kernel call: either in a fixed-size
/// stack buffer (short names) or heap-allocated (long names).
#[derive(Debug)]
pub enum CNameBuf {
    /// A short name, held in a stack buffer; `len` bytes of `buf` are in use.
    Short { buf: [u8; CSTR_BUF_SIZE], len: usize },
    /// A long name, heap-allocated.
    Long { vec: Vec<u8> },
}

impl View for CNameBuf {
    type V = Seq<u8>;

    /// The normalized name bytes, without the terminating NUL.
    closed spec fn view(&self) -> Seq<u8> {
        match self {
            CNameBuf::Short { buf, len } => buf@.subrange(0, *len as int),
            CNameBuf::Long { vec } => vec@,
        }
    }
}

impl CNameBuf {
    /// The in-use prefix of the stack buffer must lie within it.
    pub closed spec fn wf(&self) -> bool {
        match self {
            CNameBuf::Short { buf, len } => *len <= CSTR_BUF_SIZE,
            CNameBuf::Long { vec } => true,
        }
    }

    /// The normalized name as a byte slice, without the terminating NUL.
    pub fn as_bytes(&self) -> (r: &[u8])
        requires
            self.wf(),
        ensures
            r@ == self@,
    {
        match self {
            CNameBuf::Short { buf, len } => slice_subrange(buf.as_slice(), 0, *len),
            CNameBuf::Long { vec } => vec.as_slice(),
        }
    }
}

/// Whether a byte slice holds a NUL byte.
fn contains_nul(s: &[u8]) -> (b: bool)
    ensures
        b <==> exists|i: int| 0 <= i < s@.len() && s@[i] == 0,
{
    let mut k: usize = 0;
    while k < s.len()
        invariant
            k <= s@.len(),
            forall|i: int| 0 <= i < k ==> s@[i] != 0,
        decreases s@.len() - k,
    {
        if *vstd::slice::slice_index_get(s, k) == 0 {
            return true;
        }
        k += 1;
    }
    false
}

/// Normalize a name whose optional trailing NUL has already been removed.
///
/// Rejects the name exactly when a NUL byte remains. A short name is
/// assembled in a fixed-size stack buffer, a longer one on the heap; either
/// way the result is [`kernel_name_of`] the input.
fn name_to_c_bare(name: &[u8]) -> (r: Result<CNameBuf, Error>)
    ensures
        r is Ok <==> name_ok(name@),
        r is Ok ==> r->Ok_0.wf() && r->Ok_0@ == kernel_name_of(name@),
        r is Ok && stripped(name@).len() <= CSTR_BUF_SIZE - 2 ==> r->Ok_0 is Short,
        r is Ok && stripped(name@).len() > CSTR_BUF_SIZE - 2 ==> r->Ok_0 is Long,
        r is Err ==> r->Err_0 == Error::InvalidInput,
{
    let stripped_name: &[u8] = if name.len() > 0 && *vstd::slice::slice_index_get(name, 0)
        == SLASH {
        slice_subrange(name, 1, name.len())
    } else {
        name
    };
    proof {
        assert(stripped_name@ =~= stripped(name@));
    }
    if contains_nul(stripped_name) {
        proof {
            let i = choose|i: int| 0 <= i < stripped_name@.len() && stripped_name@[i] == 0;
            if name@.len() > 0 && name@[0] == SLASH {
                assert(name@[i + 1] == 0);
            } else {
                assert(name@[i] == 0);
            }
        }
        return Err(Error::InvalidInput);
    }
    assert(name_ok(name@)) by {
        assert forall|i: int| 0 <= i < name@.len() implies name@[i] != 0 by {
            if name@.len() > 0 && name@[0] == SLASH {
                if i > 0 {
                    assert(stripped(name@)[i - 1] == name@[i]);
                }
            } else {
                assert(stripped(name@)[i] == name@[i]);
            }
        }
    }
    if stripped_name.len() <= CSTR_BUF_SIZE - 2 {
        let mut buf: [u8; CSTR_BUF_SIZE] = [0u8; CSTR_BUF_SIZE];
        buf[0] = SLASH;
        let mut k: usize = 0;
        while k < stripped_name.len()
            invariant
                k <= stripped_name@.len(),
                stripped_name@.len() <= 30,
                buf@.len() == 32,
                buf@[0] == SLASH,
                forall|j: int| 0 <= j < k ==> buf@[j + 1] == stripped_name@[j],
            decreases stripped_name@.len() - k,
        {
            buf[k + 1] = *vstd::slice::slice_index_get(stripped_name, k);
            k += 1;
        }
        let len = stripped_name.len() + 1;
        proof {
            assert(buf@.subrange(0, len as int) =~= seq![SLASH].add(stripped_name@));
        }
        Ok(CNameBuf::Short { buf, len })
    } else {
        let mut buf: Vec<u8> = Vec::with_capacity(name.len());
        if !(*vstd::slice::slice_index_get(stripped_name, 0) == SLASH) {
            buf.push(SLASH);
            proof {
                assert(buf@ =~= seq![SLASH]);
            }
        }
        buf.extend_from_slice(stripped_name);
        proof {
            if stripped(name@)[0] == SLASH {
                assert(buf@ =~= kernel_name_of(name@));
            } else {
                assert(buf@ =~= seq![SLASH].add(stripped(name@)));
            }
        }
        Ok(CNameBuf::Long { vec: buf })
    }
}

/// Normalize a caller-supplied name into the kernel's form.
///
/// A single trailing NUL is accounted for first: `"q"` and `"q\0"` yield
/// the same kernel name. A NUL that remains after that, an interior one, is
/// a programming error and returns [`Error::InvalidInput`], never a
/// silently shortened name. The result is [`kernel_name_of`] the trimmed
/// input, in the stack-buffer form for short names and heap-allocated for
/// longer ones.
pub fn name_to_c(name: &[u8]) -> (r: Result<CNameBuf, Error>)
    ensures
        r is Ok <==> effective_name_ok(name@),
        r is Ok ==> r->Ok_0.wf() && r->Ok_0@ == kernel_name_of(trimmed(name@)),
        r is Ok && stripped(trimmed(name@)).len() <= CSTR_BUF_SIZE - 2 ==> r->Ok_0 is Short,
        r is Ok && stripped(trimmed(name@)).len() > CSTR_BUF_SIZE - 2 ==> r->Ok_0 is Long,
        r is Err ==> r->Err_0 == Error::InvalidInput,
{
    let base: &[u8] = if name.len() > 0 && *vstd::slice::slice_index_get(name, name.len() - 1)
        == 0 {
        slice_subrange(name, 0, name.len() - 1)
    } else {
        name
    };
    proof {
        assert(base@ =~= trimmed(name@));
    }
    name_to_c_bare(base)
}

/// Normalization introduces no NUL byte: the kernel form of an acceptable
/// name is itself NUL-free, so it reaches the kernel call unshortened.
pub proof fn lemma_kernel_name_nul_free(n: Seq<u8>)
    requires
        name_ok(n),
    ensures
        name_ok(kernel_name_of(n)),
{
    let s = stripped(n);
    assert forall|i: int| 0 <= i < s.len() implies s[i] != 0 by {
        if n.len() > 0 && n[0] == SLASH {
            assert(s[i] == n[i + 1]);
        }
    }
    let k = kernel_name_of(n);
    assert forall|i: int| 0 <= i < k.len() implies k[i] != 0 by {
        if !(s.len() > CSTR_BUF_SIZE - 2 && s.len() > 0 && s[0] == SLASH) {
            if i > 0 {
                assert(k[i] == s[i - 1]);
            }
        }
    }
}

/// The caller's name with a single trailing NUL removed, if there is one.
pub open spec fn trimmed(n: Seq<u8>) -> Seq<u8> {
    if n.len() > 0 && n.last() == 0 {
        n.drop_last()
    } else {
        n
    }
}

/// The effective kernel name that [`name_from_bytes`] produces: the name
/// minus a single trailing NUL, with a slash prepended when missing.
pub open spec fn effective_name(n: Seq<u8>) -> Seq<u8> {
    let base = trimmed(n);
    if base.len() > 0 && base[0] == SLASH {
        base
    } else {
        seq![SLASH].add(base)
    }
}

/// Whether [`name_from_bytes`] accepts the name: after accounting for a
/// single trailing NUL, no NUL byte may remain.
pub open spec fn effective_name_ok(n: Seq<u8>) -> bool {
    forall|i: int| 0 <= i < trimmed(n).len() ==> trimmed(n)[i] != 0
}

/// A caller's name brought into C-string form, reusing the input buffer
/// when it already has the right shape.
#[derive(Debug)]
pub enum KernelName<'a> {
    /// The input was already of the form `/…\0` and is reused as it stands.
    Borrowed(&'a [u8]),
    /// A fresh buffer holding the normalized name, without the trailing NUL.
    Owned(Vec<u8>),
}

impl<'a> View for KernelName<'a> {
    type V = Seq<u8>;

    /// The effective kernel name, without the terminating NUL.
    closed spec fn view(&self) -> Seq<u8> {
        match self {
            KernelName::Borrowed(s) => {
                if s@.len() > 0 {
                    s@.drop_last()
                } else {
                    s@
                }
            },
            KernelName::Owned(v) => v@,
        }
    }
}

impl<'a> KernelName<'a> {
    /// A borrowed name must really be a NUL-terminated buffer.
    pub closed spec fn wf(&self) -> bool {
        match self {
            KernelName::Borrowed(s) => s@.len() > 0 && s@.last() == 0,
            KernelName::Owned(v) => true,
        }
    }

    /// The effective kernel name as a byte slice, without the trailing NUL.
    pub fn to_bytes(&self) -> (r: &[u8])
        requires
            self.wf(),
        ensures
            r@ == self@,
    {
        match self {
            KernelName::Borrowed(s) => slice_subrange(s, 0, s.len() - 1),
            KernelName::Owned(v) => v.as_slice(),
        }
    }
}

/// Convert a caller-supplied name into a C-string form without allocating
/// when possible.
///
/// The input is reused as it stands when it already begins with `/` and ends
/// with NUL; otherwise a fresh buffer is made with the slash prepended when
/// missing and a single trailing NUL dropped.
///
/// The name must not hold interior NUL bytes: call sites of this convenience
/// entry point are expected to have validated that already, and the fallible
/// entry points of the library report such names as [`Error::InvalidInput`]
/// instead.
pub fn name_from_bytes<'a>(name: &'a [u8]) -> (r: KernelName<'a>)
    requires
        effective_name_ok(name@),
    ensures
        r.wf(),
        r@ == effective_name(name@),
        r is Borrowed <==> name@.len() > 0 && name@[0] == SLASH && name@.last() == 0,
{
    let n = name.len();
    if n > 0 && *vstd::slice::slice_index_get(name, 0) == SLASH && *vstd::slice::slice_index_get(
        name,
        n - 1,
    ) == 0 {
        proof {
            assert(name@.drop_last() =~= trimmed(name@));
        }
        KernelName::Borrowed(name)
    } else {
        let mut owned: Vec<u8> = Vec::with_capacity(n);
        if !(n > 0 && *vstd::slice::slice_index_get(name, 0) == SLASH) {
            owned.push(SLASH);
        }
        owned.extend_from_slice(name);
        if n > 0 && *vstd::slice::slice_index_get(name, n - 1) == 0 {
            let _popped = owned.pop();
        }
        proof {
            let prefixed = n > 0 && name@[0] == SLASH;
            let ends_nul = n > 0 && name@.last() == 0;
            if prefixed && ends_nul {
                assert(false);
            } else if prefixed {
                assert(owned@ =~= effective_name(name@));
            } else if ends_nul {
                assert(seq![SLASH].add(name@).drop_last() =~= seq![SLASH].add(
                    name@.drop_last(),
                ));
                assert(owned@ =~= effective_name(name@));
            } else {
                assert(owned@ =~= effective_name(name@));
            }
        }
        KernelName::Owned(owned)
    }
}

/// Law: the two normalizing entry points agree. For every acceptable name
/// whose trimmed, stripped form does not itself begin with a slash (the one
/// corner where the allocating path keeps a doubled slash while the
/// convenience path would not), the fallible normalizer and the convenience
/// normalizer produce the same effective kernel name.
pub proof fn lemma_normalizers_agree(n: Seq<u8>)
    requires
        effective_name_ok(n),
        !(stripped(trimmed(n)).len() > CSTR_BUF_SIZE - 2 && stripped(trimmed(n)).len() > 0
            && stripped(trimmed(n))[0] == SLASH),
    ensures
        kernel_name_of(trimmed(n)) == effective_name(n),
{
    let m = trimmed(n);
    if m.len() > 0 {
        assert(m.last() != 0);
    }
    if m.len() > 0 && m[0] == SLASH {
        assert(seq![SLASH].add(m.subrange(1, m.len() as int)) =~= m);
    }
}

/// Law: a trailing NUL makes no difference to normalization. For every name
/// free of NUL bytes, appending one NUL yields the same effective kernel
/// name on both normalizing paths, and the appended form is acceptable
/// exactly because the bare form is.
pub proof fn lemma_trailing_nul_irrelevant(n: Seq<u8>)
    requires
        name_ok(n),
    ensures
        effective_name(n.push(0)) == effective_name(n),
        kernel_name_of(trimmed(n.push(0))) == kernel_name_of(trimmed(n)),
        effective_name_ok(n.push(0)),
        effective_name_ok(n),
{
    assert(n.push(0).last() == 0);
    assert(n.push(0).drop_last() =~= n);
    if n.len() > 0 {
        assert(n.last() != 0);
    }
    assert(trimmed(n.push(0)) == trimmed(n));
}

} // verus!
