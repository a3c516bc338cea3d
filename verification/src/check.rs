use vstd::prelude::*;

use crate::generator::MutationError;

verus! {

/// Aggregated verification result: an ordered list of violation messages.
/// The empty list means the constraint is satisfied. Checks compose by
/// concatenation (logical AND across sibling constraints) and by per-entry
/// label prefixing (path annotation across structural lifts).
pub struct Check {
    errors: Vec<String>,
}

impl View for Check {
    type V = Seq<Seq<char>>;

    closed spec fn view(&self) -> Seq<Seq<char>> {
        self.errors@.map(|i: int, s: String| s@)
    }
}

impl Check {
    /// No violations.
    pub fn empty() -> (c: Check)
        ensures
            c@ == Seq::<Seq<char>>::empty(),
    {
        let c = Check { errors: Vec::new() };
        proof {
            assert(c@ =~= Seq::<Seq<char>>::empty());
        }
        c
    }

    /// A single violation.
    pub fn fail(msg: String) -> (c: Check)
        ensures
            c@ == seq![msg@],
    {
        let mut errors: Vec<String> = Vec::new();
        errors.push(msg);
        let c = Check { errors };
        proof {
            assert(c@ =~= seq![msg@]);
        }
        c
    }

    /// Convert the outcome of a mutation run into a verification result:
    /// success means no violation, failure carries one message.
    pub fn from_result<T>(r: Result<T, MutationError>) -> (c: Check)
        ensures
            r is Ok ==> c@ == Seq::<Seq<char>>::empty(),
            r matches Err(MutationError::Rejected(s)) ==> c@ == seq![s@],
            r matches Err(MutationError::BruteForceExceeded(s)) ==> c@ == seq![s@],
            r matches Err(MutationError::Exhausted) ==> c@.len() == 1,
    {
        match r {
            Ok(_) => Check::empty(),
            Err(MutationError::Rejected(s)) => Check::fail(s),
            Err(MutationError::BruteForceExceeded(s)) => Check::fail(s),
            Err(MutationError::Exhausted) => Check::fail("ran out of entropy".to_owned()),
        }
    }

    /// True when there are no violations.
    pub fn is_ok(&self) -> (b: bool)
        ensures
            b == (self@.len() == 0),
    {
        self.errors.len() == 0
    }

    /// The number of violations.
    pub fn count(&self) -> (n: usize)
        ensures
            n == self@.len(),
    {
        self.errors.len()
    }

    /// The violation messages.
    pub fn errors(self) -> (v: Vec<String>)
        ensures
            v@.len() == self@.len(),
            forall|i: int| 0 <= i < v@.len() ==> v@[i]@ == self@[i],
    {
        self.errors
    }

    /// Ok exactly when there are no violations; the error side carries the
    /// messages.
    pub fn result(self) -> (r: Result<(), Vec<String>>)
        ensures
            r is Ok <==> self@.len() == 0,
            r matches Err(v) ==> v@.len() == self@.len()
                && (forall|i: int| 0 <= i < v@.len() ==> v@[i]@ == self@[i]),
    {
        if self.errors.len() == 0 {
            Ok(())
        } else {
            Err(self.errors)
        }
    }

    /// Concatenation: logical AND — empty only if both operands are empty.
    pub fn and(self, other: Check) -> (c: Check)
        ensures
            c@ == self@ + other@,
    {
        let mut errors = self.errors;
        let mut tail = other.errors;
        errors.append(&mut tail);
        let c = Check { errors };
        proof {
            assert(c@ =~= self@ + other@);
        }
        c
    }

    /// Prefix every message with a path label.
    pub fn prefix(self, label: &str) -> (c: Check)
        ensures
            c@.len() == self@.len(),
            forall|i: int| 0 <= i < self@.len() ==> c@[i] == label@ + self@[i],
    {
        let mut out: Vec<String> = Vec::new();
        let n = self.errors.len();
        let mut k: usize = 0;
        while k < n
            invariant
                n == self.errors.len(),
                k <= n,
                out@.len() == k,
                forall|i: int| 0 <= i < k ==> out@[i]@ == label@ + self@[i],
            decreases n - k,
        {
            let tagged = label.to_owned().concat(self.errors[k].as_str());
            out.push(tagged);
            k += 1;
        }
        let c = Check { errors: out };
        c
    }
}

/// The character for one decimal digit.
pub open spec fn dec_digit(d: nat) -> char {
    if d == 0 {
        '0'
    } else if d == 1 {
        '1'
    } else if d == 2 {
        '2'
    } else if d == 3 {
        '3'
    } else if d == 4 {
        '4'
    } else if d == 5 {
        '5'
    } else if d == 6 {
        '6'
    } else if d == 7 {
        '7'
    } else if d == 8 {
        '8'
    } else {
        '9'
    }
}

/// The decimal digits of `n`, most significant first.
pub open spec fn dec_seq(n: nat) -> Seq<char>
    decreases n,
{
    if n < 10 {
        seq![dec_digit(n)]
    } else {
        dec_seq(n / 10) + seq![dec_digit(n % 10)]
    }
}

fn digit_str(d: usize) -> (s: &'static str)
    requires
        d < 10,
    ensures
        s@ == seq![dec_digit(d as nat)],
{
    proof {
        reveal_strlit("0");
        reveal_strlit("1");
        reveal_strlit("2");
        reveal_strlit("3");
        reveal_strlit("4");
        reveal_strlit("5");
        reveal_strlit("6");
        reveal_strlit("7");
        reveal_strlit("8");
        reveal_strlit("9");
    }
    let s = if d == 0 {
        "0"
    } else if d == 1 {
        "1"
    } else if d == 2 {
        "2"
    } else if d == 3 {
        "3"
    } else if d == 4 {
        "4"
    } else if d == 5 {
        "5"
    } else if d == 6 {
        "6"
    } else if d == 7 {
        "7"
    } else if d == 8 {
        "8"
    } else {
        "9"
    };
    proof {
        assert(s@ =~= seq![dec_digit(d as nat)]);
    }
    s
}

/// Render `n` in decimal.
pub fn dec_string(n: usize) -> (s: String)
    ensures
        s@ == dec_seq(n as nat),
    decreases n,
{
    if n < 10 {
        digit_str(n).to_owned()
    } else {
        proof {
            assert(n / 10 < n) by (nonlinear_arith)
                requires
                    n >= 10,
            ;
        }
        let mut s = dec_string(n / 10);
        s.append(digit_str(n % 10));
        proof {
            assert(s@ =~= dec_seq(n as nat));
        }
        s
    }
}

/// The label prefixed to violations of the item at position `i` of a
/// sequence walk.
pub open spec fn item_tag(i: nat) -> Seq<char> {
    "item "@ + dec_seq(i) + ": "@
}

/// Render the label for position `i` of a sequence walk.
pub fn item_tag_string(i: usize) -> (s: String)
    ensures
        s@ == item_tag(i as nat),
{
    let mut s = "item ".to_owned();
    s.append(dec_string(i).as_str());
    s.append(": ");
    proof {
        assert(s@ =~= item_tag(i as nat));
    }
    s
}

} // verus!
