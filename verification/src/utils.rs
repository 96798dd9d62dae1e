//! Nul-terminated byte strings, as the runtime boundary expects device
//! names, and a zero-cost role marker.

use core::marker::PhantomData;
use vstd::prelude::*;

use crate::error::CCharsCreateFailure;

verus! {

/// True when the byte string holds at least one nul byte.
pub open spec fn has_nul(s: Seq<u8>) -> bool {
    exists|i: int| 0 <= i < s.len() && s[i] == 0
}

/// Index of the first nul of the byte string; its length when it has none.
pub open spec fn first_nul(s: Seq<u8>) -> int
    decreases s.len(),
{
    if s.len() == 0 {
        0
    } else if s[0] == 0 {
        0
    } else {
        1 + first_nul(s.subrange(1, s.len() as int))
    }
}

/// The logical contents of a nul-terminated byte string: everything before
/// the first nul.
pub open spec fn c_content(s: Seq<u8>) -> Seq<u8> {
    s.subrange(0, first_nul(s))
}

/// The first nul lies inside the string exactly when the string has one,
/// and nothing before it is a nul.
pub proof fn lemma_first_nul(s: Seq<u8>)
    ensures
        0 <= first_nul(s) <= s.len(),
        forall|j: int| 0 <= j < first_nul(s) ==> s[j] != 0,
        has_nul(s) <==> first_nul(s) < s.len(),
        first_nul(s) < s.len() ==> s[first_nul(s)] == 0,
    decreases s.len(),
{
    if s.len() == 0 {
    } else if s[0] == 0 {
    } else {
        let t = s.subrange(1, s.len() as int);
        lemma_first_nul(t);
        assert forall|j: int| 0 <= j < first_nul(s) implies s[j] != 0 by {
            if j > 0 {
                assert(t[j - 1] != 0);
            }
        }
        if has_nul(s) {
            let i = choose|i: int| 0 <= i < s.len() && s[i] == 0;
            assert(t[i - 1] == 0);
            assert(has_nul(t));
        }
        if has_nul(t) {
            let i = choose|i: int| 0 <= i < t.len() && t[i] == 0;
            assert(s[i + 1] == 0);
            assert(has_nul(s));
        }
        if first_nul(s) < s.len() {
            assert(s[first_nul(s)] == t[first_nul(t)]);
        }
    }
}

/// An owned, nul-terminated byte string: the shape in which the runtime
/// boundary stores and reads device-type names.
pub struct CChars {
    bytes: Vec<u8>,
}

impl View for CChars {
    type V = Seq<u8>;

    closed spec fn view(&self) -> Seq<u8> {
        self.bytes@
    }
}

impl CChars {
    /// Every constructor leaves at least one nul in the stored bytes.
    pub open spec fn wf(&self) -> bool {
        has_nul(self@)
    }

    /// Wraps a byte string, rejecting one without a nul terminator.
    pub fn try_new(bytes: Vec<u8>) -> (r: Result<CChars, CCharsCreateFailure>)
        ensures
            match r {
                Ok(c) => has_nul(bytes@) && c@ == bytes@ && c.wf(),
                Err(e) => !has_nul(bytes@) && e == CCharsCreateFailure::NoNulTerminator,
            },
    {
        let n = bytes.len();
        let mut i: usize = 0;
        while i < n
            invariant
                i <= n,
                n == bytes@.len(),
                forall|j: int| 0 <= j < i ==> bytes@[j] != 0,
            decreases n - i,
        {
            if bytes[i] == 0 {
                assert(has_nul(bytes@));
                return Ok(CChars { bytes });
            }
            i += 1;
        }
        assert(!has_nul(bytes@));
        Err(CCharsCreateFailure::NoNulTerminator)
    }

    /// Wraps a byte string that holds a nul; the caller has checked that it
    /// does.
    pub fn new(bytes: Vec<u8>) -> (r: CChars)
        requires
            has_nul(bytes@),
        ensures
            r@ == bytes@,
            r.wf(),
    {
        CChars { bytes }
    }

    /// Appends the terminator to a bare name, rejecting a name with an
    /// interior nul.
    pub fn new_terminated(name: Vec<u8>) -> (r: Result<CChars, CCharsCreateFailure>)
        ensures
            match r {
                Ok(c) => !has_nul(name@) && c@ == name@.push(0u8) && c.wf(),
                Err(e) => has_nul(name@) && e == CCharsCreateFailure::InteriorNul,
            },
    {
        let n = name.len();
        let mut i: usize = 0;
        while i < n
            invariant
                i <= n,
                n == name@.len(),
                forall|j: int| 0 <= j < i ==> name@[j] != 0,
            decreases n - i,
        {
            if name[i] == 0 {
                assert(has_nul(name@));
                return Err(CCharsCreateFailure::InteriorNul);
            }
            i += 1;
        }
        assert(!has_nul(name@));
        let mut bytes = name;
        bytes.push(0);
        assert(bytes@[bytes@.len() - 1] == 0);
        Ok(CChars { bytes })
    }

    /// The stored bytes, terminator included.
    pub fn as_bytes(&self) -> (r: &Vec<u8>)
        ensures
            r@ == self@,
    {
        &self.bytes
    }

    /// Number of stored bytes, terminator included.
    pub fn len(&self) -> (r: usize)
        ensures
            r == self@.len(),
    {
        self.bytes.len()
    }

    /// The bytes before the first nul: what a C consumer reads as the
    /// string contents.
    pub fn content_bytes(&self) -> (r: Vec<u8>)
        ensures
            r@ == c_content(self@),
    {
        let n = self.bytes.len();
        let mut out: Vec<u8> = Vec::new();
        let mut i: usize = 0;
        while i < n
            invariant
                i <= n,
                n == self.bytes@.len(),
                forall|j: int| 0 <= j < i ==> self.bytes@[j] != 0,
                out@ == self.bytes@.subrange(0, i as int),
            decreases n - i,
        {
            if self.bytes[i] == 0 {
                proof {
                    lemma_first_nul(self.bytes@);
                    if first_nul(self.bytes@) < i {
                        assert(self.bytes@[first_nul(self.bytes@)] == 0);
                    }
                    assert(first_nul(self.bytes@) == i);
                }
                return out;
            }
            out.push(self.bytes[i]);
            i += 1;
        }
        proof {
            lemma_first_nul(self.bytes@);
            assert(first_nul(self.bytes@) == n);
        }
        out
    }
}

/// Round trip for device names: terminating a name without interior nuls
/// and reading the contents back yields the name unchanged.
pub proof fn lemma_name_round_trip(name: Seq<u8>)
    requires
        !has_nul(name),
    ensures
        has_nul(name.push(0u8)),
        c_content(name.push(0u8)) == name,
{
    let s = name.push(0u8);
    assert(s[name.len() as int] == 0);
    assert(has_nul(s));
    lemma_first_nul(s);
    assert forall|j: int| 0 <= j < name.len() implies s[j] != 0 by {
        assert(s[j] == name[j]);
    }
    if first_nul(s) < name.len() {
        assert(s[first_nul(s)] == 0);
    }
    assert(first_nul(s) == name.len());
    assert(c_content(s) =~= name);
}

/// A zero-cost wrapper that ties a value of type `T` to a role type `R`,
/// so that values meant for different roles cannot be interchanged.
pub struct TypeSafetyWrapper<T, R> {
    inner: T,
    phantom: PhantomData<R>,
}

impl<T, R> TypeSafetyWrapper<T, R> {
    /// The wrapped value.
    pub closed spec fn wrapped(&self) -> T {
        self.inner
    }

    /// Ties `inner` to the role `R`.
    pub fn wrap(inner: T) -> (r: Self)
        ensures
            r.wrapped() == inner,
    {
        TypeSafetyWrapper { inner, phantom: PhantomData }
    }

    /// Releases the wrapped value; meant for code that has re-established
    /// the role by other means.
    pub fn __unwrap(self) -> (r: T)
        ensures
            r == self.wrapped(),
    {
        self.inner
    }
}

} // verus!
