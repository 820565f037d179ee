use vstd::prelude::*;

use crate::error::Error;
use vstd::std_specs::cmp::PartialEqSpec;
use vstd::string::StringSliceAdditionalSpecFns;
use vstd::utf8::encode_utf8;

verus! {

/// Fixed-capacity vector: at most `N` elements, `push` fails with a
/// capacity error instead of growing past `N`.
#[derive(Debug)]
pub struct HeaplessVec<T: Copy, const N: usize> {
    data: Vec<T>,
}

impl<T: Copy, const N: usize> Clone for HeaplessVec<T, N> {
    fn clone(&self) -> (r: Self)
        ensures
            r@ == self@,
    {
        proof {
            use_type_invariant(self);
        }
        let n = self.data.len();
        let mut data: Vec<T> = Vec::new();
        let mut i: usize = 0;
        while i < n
            invariant
                n == self.data@.len() <= N,
                i <= n,
                data@ == self.data@.subrange(0, i as int),
            decreases n - i,
        {
            data.push(self.data[i]);
            proof {
                assert(data@ =~= self.data@.subrange(0, i + 1 as int));
            }
            i = i + 1;
        }
        proof {
            assert(data@ =~= self.data@);
        }
        HeaplessVec { data }
    }
}

impl<T: Copy, const N: usize> View for HeaplessVec<T, N> {
    type V = Seq<T>;

    closed spec fn view(&self) -> Seq<T> {
        self.data@
    }
}

impl<T: Copy, const N: usize> HeaplessVec<T, N> {
    /// Capacity never exceeded: the element count stays at most `N`.
    #[verifier::type_invariant]
    pub closed spec fn capacity_ok(self) -> bool {
        self.data@.len() <= N
    }

    pub fn new() -> (r: Self)
        ensures
            r@ == Seq::<T>::empty(),
    {
        HeaplessVec { data: Vec::new() }
    }

    /// Appends `value` if there is room; a full vector is left unchanged
    /// and a capacity error is returned.
    pub fn push(&mut self, value: T) -> (r: Result<(), Error>)
        ensures
            old(self)@.len() < N ==> r is Ok && final(self)@ == old(self)@.push(value),
            old(self)@.len() >= N ==> r is Err && final(self)@ == old(self)@,
    {
        proof {
            use_type_invariant(&*self);
        }
        if self.data.len() < N {
            let mut data: Vec<T> = Vec::new();
            core::mem::swap(&mut self.data, &mut data);
            data.push(value);
            core::mem::swap(&mut self.data, &mut data);
            Ok(())
        } else {
            crate::error::err("HeaplessVec: vector is full")
        }
    }

    /// Removes and returns the most recently pushed element, if any.
    pub fn pop(&mut self) -> (r: Option<T>)
        ensures
            old(self)@.len() > 0 ==> r == Some(old(self)@.last())
                && final(self)@ == old(self)@.drop_last(),
            old(self)@.len() == 0 ==> r is None && final(self)@ == old(self)@,
    {
        proof {
            use_type_invariant(&*self);
        }
        if self.data.len() > 0 {
            let mut data: Vec<T> = Vec::new();
            core::mem::swap(&mut self.data, &mut data);
            let r = data.pop();
            core::mem::swap(&mut self.data, &mut data);
            r
        } else {
            None
        }
    }

    pub fn is_empty(&self) -> (r: bool)
        ensures
            r == (self@.len() == 0),
    {
        self.data.len() == 0
    }

    pub fn len(&self) -> (r: usize)
        ensures
            r == self@.len(),
    {
        self.data.len()
    }

    /// Returns the element at `index`.
    pub fn get(&self, index: usize) -> (r: T)
        requires
            index < self@.len(),
        ensures
            r == self@[index as int],
    {
        self.data[index]
    }

    /// Removes every element.
    pub fn clear(&mut self)
        ensures
            final(self)@ == Seq::<T>::empty(),
    {
        proof {
            use_type_invariant(&*self);
        }
        let mut data: Vec<T> = Vec::new();
        core::mem::swap(&mut self.data, &mut data);
        data.clear();
        core::mem::swap(&mut self.data, &mut data);
    }

    pub fn iter(&self) -> (r: HeaplessVecIter<'_, T, N>)
        ensures
            r.vec@ == self@,
            r.index == 0,
    {
        HeaplessVecIter { vec: self, index: 0 }
    }
}

impl<T: Copy + PartialEq, const N: usize> HeaplessVec<T, N> {
    /// Whether some element compares equal to `item`.
    pub fn contains(&self, item: T) -> (r: bool)
        ensures
            T::obeys_eq_spec() ==> r == (exists|i: int|
                0 <= i < self@.len() && #[trigger] self@[i].eq_spec(&item)),
    {
        proof {
            use_type_invariant(self);
        }
        let n = self.data.len();
        let mut i: usize = 0;
        while i < n
            invariant
                n == self@.len(),
                i <= n,
                T::obeys_eq_spec() ==> forall|j: int|
                    0 <= j < i ==> !(#[trigger] self@[j].eq_spec(&item)),
            decreases n - i,
        {
            if self.data[i] == item {
                return true;
            }
            i = i + 1;
        }
        false
    }
}

/// Read cursor over a `HeaplessVec`, advanced by `next`.
pub struct HeaplessVecIter<'a, T: Copy, const N: usize> {
    pub vec: &'a HeaplessVec<T, N>,
    pub index: usize,
}

impl<'a, T: Copy, const N: usize> HeaplessVecIter<'a, T, N> {
    /// Returns the next element and advances, or `None` past the end.
    pub fn next(&mut self) -> (r: Option<T>)
        ensures
            final(self).vec == old(self).vec,
            old(self).index < old(self).vec@.len() ==> r == Some(old(self).vec@[old(self).index as int])
                && final(self).index == old(self).index + 1,
            old(self).index >= old(self).vec@.len() ==> r is None
                && final(self).index == old(self).index,
    {
        proof {
            use_type_invariant(self.vec);
        }
        if self.index < self.vec.len() {
            let item = self.vec.get(self.index);
            self.index = self.index + 1;
            Some(item)
        } else {
            None
        }
    }
}

/// Fixed-capacity UTF-8 string: at most `N` bytes of encoded content.
#[derive(Debug)]
pub struct HeaplessString<const N: usize> {
    data: String,
}

impl<const N: usize> Clone for HeaplessString<N> {
    fn clone(&self) -> (r: Self)
        ensures
            r@ == self@,
    {
        proof {
            use_type_invariant(self);
        }
        HeaplessString { data: self.data.clone() }
    }
}

impl<const N: usize> View for HeaplessString<N> {
    type V = Seq<char>;

    closed spec fn view(&self) -> Seq<char> {
        self.data@
    }
}

/// The UTF-8 encoding of a character sequence splits over concatenation.
proof fn lemma_encode_utf8_concat(a: Seq<char>, b: Seq<char>)
    ensures
        encode_utf8(a + b) == encode_utf8(a) + encode_utf8(b),
    decreases a.len(),
{
    if a.len() == 0 {
        assert(a + b =~= b);
        assert(encode_utf8(a) + encode_utf8(b) =~= encode_utf8(b));
    } else {
        assert((a + b).drop_first() =~= a.drop_first() + b);
        lemma_encode_utf8_concat(a.drop_first(), b);
        assert(encode_utf8(a + b) =~= encode_utf8(a) + encode_utf8(b));
    }
}

impl<const N: usize> HeaplessString<N> {
    /// Byte capacity never exceeded: the UTF-8 encoding of the content
    /// stays at most `N` bytes long.
    #[verifier::type_invariant]
    pub closed spec fn capacity_ok(self) -> bool {
        encode_utf8(self.data@).len() <= N
    }

    pub fn new() -> (r: Self)
        ensures
            r@ == Seq::<char>::empty(),
    {
        HeaplessString { data: String::new() }
    }

    /// Builds a bounded string from `s`; fails if `s` does not fit in
    /// `N` bytes of UTF-8.
    pub fn from_str(s: &str) -> (r: Result<Self, Error>)
        ensures
            encode_utf8(s@).len() <= N ==> (r matches Ok(h) && h@ == s@),
            encode_utf8(s@).len() > N ==> r is Err,
    {
        let mut string = Self::new();
        match string.push_str(s) {
            Ok(()) => Ok(string),
            Err(e) => Err(e),
        }
    }

    /// Appends `s` if the result still fits in `N` bytes; a string
    /// without room is left unchanged and a capacity error is returned.
    pub fn push_str(&mut self, s: &str) -> (r: Result<(), Error>)
        ensures
            encode_utf8(old(self)@).len() + encode_utf8(s@).len() <= N ==> r is Ok
                && final(self)@ == old(self)@ + s@,
            encode_utf8(old(self)@).len() + encode_utf8(s@).len() > N ==> r is Err
                && final(self)@ == old(self)@,
    {
        proof {
            use_type_invariant(&*self);
        }
        let used = self.data.as_str().len();
        let slen = s.as_bytes().len();
        if slen <= N - used {
            proof {
                lemma_encode_utf8_concat(self.data@, s@);
            }
            let mut data: String = String::new();
            core::mem::swap(&mut self.data, &mut data);
            data.append(s);
            core::mem::swap(&mut self.data, &mut data);
            Ok(())
        } else {
            crate::error::err("HeaplessString: string is full")
        }
    }

    /// The content as an ordinary string slice.
    pub fn as_str(&self) -> (r: &str)
        ensures
            r@ == self@,
    {
        self.data.as_str()
    }

    /// The content copied into an owned `String`.
    pub fn to_string(&self) -> (r: String)
        ensures
            r@ == self@,
    {
        self.data.clone()
    }
}

} // verus!
