use vstd::prelude::*;

verus! {

/// The two operating modes of a [`Generator`]. `Build` consumes bytes to
/// synthesize values; `CheckOnly` refuses to introduce any new randomness,
/// which turns every attempted change into a detected violation and makes
/// verification a side-effect-free replay of mutation.
pub enum Mode {
    Build,
    CheckOnly,
}

/// An error produced while mutating a value toward a constraint.
#[derive(Debug)]
pub enum MutationError {
    /// The entropy buffer ran out mid-operation.
    Exhausted,
    /// A `CheckOnly` generator refused to introduce new randomness; the
    /// payload is the violation message of the constraint that asked for it.
    Rejected(String),
    /// Brute-force mutation exceeded its iteration ceiling.
    BruteForceExceeded(String),
}

/// Entropy-source wrapper: a finite byte buffer plus a mode flag. A
/// generator is created fresh per top-level check/build/satisfy call and
/// threaded by unique access through a single call chain.
pub struct Generator {
    mode: Mode,
    bytes: Vec<u8>,
}

impl Generator {
    /// True when this generator refuses to introduce new randomness.
    pub closed spec fn checking(&self) -> bool {
        self.mode is CheckOnly
    }

    /// The entropy that remains to be drawn; bytes are consumed from the back.
    pub closed spec fn rest(&self) -> Seq<u8> {
        self.bytes@
    }

    /// A generator in `Build` mode over a caller-supplied byte buffer.
    pub fn build_from(bytes: Vec<u8>) -> (g: Generator)
        ensures
            !g.checking(),
            g.rest() == bytes@,
    {
        Generator { mode: Mode::Build, bytes }
    }

    /// A generator in `CheckOnly` mode, with no usable entropy, so that any
    /// attempt to produce a different value degenerates into a detected
    /// violation rather than a crash.
    pub fn checker() -> (g: Generator)
        ensures
            g.checking(),
    {
        Generator { mode: Mode::CheckOnly, bytes: Vec::new() }
    }

    /// Draw one byte of entropy. In `CheckOnly` mode this always refuses,
    /// carrying the given violation message; in `Build` mode it fails only
    /// when the buffer is exhausted.
    pub fn draw_byte(&mut self, reason: &str) -> (r: Result<u8, MutationError>)
        ensures
            final(self).checking() == old(self).checking(),
            old(self).checking() ==> final(self).rest() == old(self).rest()
                && (r matches Err(e) && e matches MutationError::Rejected(s) && s@ == reason@),
            !old(self).checking() ==> match r {
                Ok(b) => old(self).rest().len() > 0 && b == old(self).rest().last()
                    && final(self).rest() == old(self).rest().drop_last(),
                Err(e) => e is Exhausted && old(self).rest().len() == 0
                    && final(self).rest() == old(self).rest(),
            },
    {
        match self.mode {
            Mode::CheckOnly => Err(MutationError::Rejected(reason.to_owned())),
            Mode::Build => match self.bytes.pop() {
                Some(b) => Ok(b),
                None => Err(MutationError::Exhausted),
            },
        }
    }

    /// Replace a value with a given constant, consuming no entropy. In
    /// `CheckOnly` mode the replacement is refused and reported instead.
    pub fn set_to<T: crate::fact::Bounds>(&mut self, constant: &T, reason: &str) -> (r: Result<
        T,
        MutationError,
    >)
        ensures
            final(self).checking() == old(self).checking(),
            final(self).rest() == old(self).rest(),
            old(self).checking() ==> (r matches Err(MutationError::Rejected(s)) && s@ == reason@),
            !old(self).checking() ==> (r matches Ok(v) && v.model() == constant.model()),
    {
        match self.mode {
            Mode::CheckOnly => Err(MutationError::Rejected(reason.to_owned())),
            Mode::Build => Ok(constant.dup()),
        }
    }

    /// Choose an index into a non-empty ordered candidate set of size `n`.
    pub fn choose_index(&mut self, n: usize, reason: &str) -> (r: Result<usize, MutationError>)
        requires
            n > 0,
        ensures
            final(self).checking() == old(self).checking(),
            old(self).checking() ==> final(self).rest() == old(self).rest()
                && (r matches Err(e) && e matches MutationError::Rejected(s) && s@ == reason@),
            !old(self).checking() ==> match r {
                Ok(i) => i < n && old(self).rest().len() > 0
                    && i as int == (old(self).rest().last() as int) % (n as int)
                    && final(self).rest() == old(self).rest().drop_last(),
                Err(e) => e is Exhausted && old(self).rest().len() == 0
                    && final(self).rest() == old(self).rest(),
            },
    {
        match self.draw_byte(reason) {
            Ok(b) => Ok((b as usize) % n),
            Err(e) => Err(e),
        }
    }
}

} // verus!
