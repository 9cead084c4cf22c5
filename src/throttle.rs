use vstd::prelude::*;

verus! {

/// Throttling settings of a tunnel: the relay reads at most `buffer_size`
/// bytes at a time and waits `delay_millis` milliseconds before writing each
/// chunk it read. The buffer is never empty.
pub struct ThrottleConfig {
    buffer_size: usize,
    delay_millis: u64,
}

impl ThrottleConfig {
    #[verifier::type_invariant]
    spec fn inv(self) -> bool {
        self.buffer_size > 0
    }

    /// Largest number of bytes moved by one read.
    pub closed spec fn chunk_limit(self) -> nat {
        self.buffer_size as nat
    }

    /// Milliseconds of pause after each read that returned data.
    pub closed spec fn pause_millis(self) -> nat {
        self.delay_millis as nat
    }

    /// Makes a configuration; a buffer of zero bytes is refused.
    pub fn new(buffer_size: usize, delay_millis: u64) -> (r: Option<ThrottleConfig>)
        ensures
            buffer_size == 0 <==> r is None,
            r matches Some(c) ==> c.chunk_limit() == buffer_size && c.pause_millis() == delay_millis,
    {
        if buffer_size == 0 {
            None
        } else {
            Some(ThrottleConfig { buffer_size, delay_millis })
        }
    }

    pub fn buffer_size(&self) -> (r: usize)
        ensures
            r == self.chunk_limit(),
            r > 0,
    {
        proof {
            use_type_invariant(self);
        }
        self.buffer_size
    }

    pub fn delay_millis(&self) -> (r: u64)
        ensures
            r == self.pause_millis(),
    {
        self.delay_millis
    }
}

impl Clone for ThrottleConfig {
    fn clone(&self) -> (r: ThrottleConfig)
        ensures
            r == *self,
    {
        proof {
            use_type_invariant(self);
        }
        ThrottleConfig { buffer_size: self.buffer_size, delay_millis: self.delay_millis }
    }
}

} // verus!
