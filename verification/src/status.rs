use vstd::prelude::*;

verus! {

/// A firmware status code, as every firmware service returns it.
#[derive(PartialEq, Eq, Structural, Clone, Copy, Debug)]
pub struct Status(pub usize);

/// The code of `NOT_READY`: the error bit, the highest bit of the word, together with 6.
pub open spec fn not_ready_code() -> usize {
    (1usize << (usize::BITS - 1) as usize) | 6usize
}

/// `NOT_READY` is not `SUCCESS`.
pub proof fn lemma_not_ready_is_not_success()
    ensures
        not_ready_code() != 0,
{
    assert(((1usize << (usize::BITS - 1) as usize) | 6usize) != 0usize) by (bit_vector);
}

impl Status {
    /// `SUCCESS`: the service completed.
    pub fn success() -> (s: Status)
        ensures
            s.0 == 0,
    {
        Status(0)
    }

    /// `NOT_READY`: there is no data pending (no key stroke waiting, for the keyboard).
    pub fn not_ready() -> (s: Status)
        ensures
            s.0 == not_ready_code(),
            s.0 != 0,
    {
        proof {
            lemma_not_ready_is_not_success();
        }
        let shift: u32 = usize::BITS - 1;
        Status((1usize << shift) | 6)
    }
}

} // verus!
