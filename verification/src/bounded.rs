use vstd::prelude::*;

use crate::errors::DeviceError;

verus! {

/// A byte buffer with a fixed capacity and an explicit used length.
///
/// The backing storage always holds exactly the capacity in bytes; every byte
/// past the used length is zero, so the raw form of the buffer is its content
/// zero-padded to the capacity. Content longer than the capacity is rejected
/// when the buffer is built, never truncated.
#[derive(Debug)]
pub struct BoundedBuf {
    bytes: Vec<u8>,
    used: usize,
}

impl BoundedBuf {
    /// The fixed capacity of the buffer, in bytes.
    pub closed spec fn spec_cap(&self) -> nat {
        self.bytes@.len()
    }

    /// The content of the buffer: its first `used` bytes.
    pub closed spec fn spec_content(&self) -> Seq<u8> {
        self.bytes@.take(self.used as int)
    }

    #[verifier::type_invariant]
    spec fn inv(&self) -> bool {
        &&& self.used <= self.bytes@.len()
        &&& forall|i: int| self.used <= i < self.bytes@.len() ==> self.bytes@[i] == 0u8
    }

    /// Builds a buffer of capacity `cap` holding `src`, zero-padded to the
    /// capacity; the caller guarantees that the content fits.
    pub fn with_content(cap: usize, src: &[u8]) -> (b: BoundedBuf)
        requires
            src@.len() <= cap,
        ensures
            b.spec_cap() == cap,
            b.spec_content() == src@,
    {
        let mut bytes: Vec<u8> = Vec::new();
        let mut i: usize = 0;
        while i < src.len()
            invariant
                i <= src@.len(),
                bytes@ == src@.take(i as int),
            decreases src@.len() - i,
        {
            bytes.push(src[i]);
            proof {
                assert(src@.take(i as int).push(src@[i as int]) =~= src@.take(i + 1));
            }
            i = i + 1;
        }
        proof {
            assert(bytes@ =~= src@);
        }
        while bytes.len() < cap
            invariant
                src@.len() <= cap,
                src@.len() <= bytes@.len(),
                bytes@.len() <= cap,
                bytes@.take(src@.len() as int) == src@,
                forall|j: int| src@.len() <= j < bytes@.len() ==> bytes@[j] == 0u8,
            decreases cap - bytes@.len(),
        {
            bytes.push(0u8);
            proof {
                assert(bytes@.take(src@.len() as int) =~= src@);
            }
        }
        let used = src.len();
        let b = BoundedBuf { bytes, used };
        proof {
            assert(b.spec_content() =~= src@);
        }
        b
    }

    /// Builds a buffer of capacity `cap` from `src`, zero-padding to the
    /// capacity; rejects content longer than the capacity.
    pub fn new(cap: usize, src: &[u8]) -> (r: Result<BoundedBuf, DeviceError>)
        ensures
            match r {
                Ok(b) => src@.len() <= cap && b.spec_cap() == cap && b.spec_content() == src@,
                Err(e) => e == DeviceError::ConfigurationError && src@.len() > cap,
            },
    {
        if src.len() > cap {
            Err(DeviceError::ConfigurationError)
        } else {
            Ok(BoundedBuf::with_content(cap, src))
        }
    }

    /// The fixed capacity, in bytes.
    pub fn capacity(&self) -> (c: usize)
        ensures
            c == self.spec_cap(),
    {
        self.bytes.len()
    }

    /// The length of the content, in bytes.
    pub fn len(&self) -> (l: usize)
        ensures
            l == self.spec_content().len(),
    {
        proof {
            use_type_invariant(self);
        }
        self.used
    }

    /// A copy of the content, without the zero padding.
    pub fn content(&self) -> (r: Vec<u8>)
        ensures
            r@ == self.spec_content(),
    {
        proof {
            use_type_invariant(self);
        }
        let mut out: Vec<u8> = Vec::new();
        let mut i: usize = 0;
        while i < self.used
            invariant
                self.inv(),
                i <= self.used,
                out@ == self.spec_content().take(i as int),
            decreases self.used - i,
        {
            out.push(self.bytes[i]);
            proof {
                assert(self.spec_content()[i as int] == self.bytes@[i as int]);
                assert(self.spec_content().take(i as int).push(self.spec_content()[i as int])
                    =~= self.spec_content().take(i + 1));
            }
            i = i + 1;
        }
        proof {
            assert(out@ =~= self.spec_content());
        }
        out
    }

    /// A copy of this buffer, byte for byte.
    pub fn clone_buf(&self) -> (b: BoundedBuf)
        ensures
            b.spec_cap() == self.spec_cap(),
            b.spec_content() == self.spec_content(),
    {
        proof {
            use_type_invariant(self);
        }
        let mut bytes: Vec<u8> = Vec::new();
        let mut i: usize = 0;
        while i < self.bytes.len()
            invariant
                i <= self.bytes@.len(),
                bytes@ == self.bytes@.take(i as int),
            decreases self.bytes@.len() - i,
        {
            bytes.push(self.bytes[i]);
            proof {
                assert(self.bytes@.take(i as int).push(self.bytes@[i as int])
                    =~= self.bytes@.take(i + 1));
            }
            i = i + 1;
        }
        proof {
            assert(bytes@ =~= self.bytes@);
        }
        BoundedBuf { bytes, used: self.used }
    }

    /// The raw form of the buffer: the content zero-padded to the capacity.
    pub fn as_padded_bytes(&self) -> (r: &Vec<u8>)
        ensures
            r@.len() == self.spec_cap(),
            r@.take(self.spec_content().len() as int) == self.spec_content(),
            forall|i: int| self.spec_content().len() <= i < r@.len() ==> r@[i] == 0u8,
    {
        proof {
            use_type_invariant(self);
            assert(self.bytes@.take(self.spec_content().len() as int) =~= self.spec_content());
        }
        &self.bytes
    }
}

} // verus!
