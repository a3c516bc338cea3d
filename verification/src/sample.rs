//! Worked subjects for the constraint framework: [`Bounds`] implementations
//! for common scalar and compound types, and a small family of record and
//! variant types with caller-authored structural accessors and predicates,
//! written the way a host application would write them.

use vstd::prelude::*;

use crate::fact::Bounds;
use crate::facts::Predicate;
use crate::generator::{Generator, MutationError};
use crate::lens::Lens;
use crate::optical::Optics;
use crate::prism::Prism;

verus! {

impl Bounds for u8 {
    type M = u8;

    open spec fn model(&self) -> u8 {
        *self
    }

    open spec fn entropy_need() -> nat {
        1
    }

    fn dup(&self) -> (r: Self) {
        *self
    }

    fn same(&self, other: &Self) -> (b: bool) {
        *self == *other
    }

    fn generate(g: &mut Generator, reason: &str) -> (r: Result<Self, MutationError>) {
        g.draw_byte(reason)
    }
}

impl Bounds for u32 {
    type M = u32;

    open spec fn model(&self) -> u32 {
        *self
    }

    open spec fn entropy_need() -> nat {
        4
    }

    fn dup(&self) -> (r: Self) {
        *self
    }

    fn same(&self, other: &Self) -> (b: bool) {
        *self == *other
    }

    fn generate(g: &mut Generator, reason: &str) -> (r: Result<Self, MutationError>) {
        let b0 = match g.draw_byte(reason) {
            Ok(b) => b,
            Err(e) => {
                return Err(e);
            },
        };
        let b1 = match g.draw_byte(reason) {
            Ok(b) => b,
            Err(e) => {
                return Err(e);
            },
        };
        let b2 = match g.draw_byte(reason) {
            Ok(b) => b,
            Err(e) => {
                return Err(e);
            },
        };
        let b3 = match g.draw_byte(reason) {
            Ok(b) => b,
            Err(e) => {
                return Err(e);
            },
        };
        Ok((b0 as u32) | ((b1 as u32) << 8u32) | ((b2 as u32) << 16u32) | ((b3 as u32) << 24u32))
    }
}

impl Bounds for String {
    type M = Seq<char>;

    open spec fn model(&self) -> Seq<char> {
        self@
    }

    open spec fn entropy_need() -> nat {
        8
    }

    fn dup(&self) -> (r: Self) {
        self.clone()
    }

    fn same(&self, other: &Self) -> (b: bool) {
        self.eq(other)
    }

    fn generate(g: &mut Generator, reason: &str) -> (r: Result<Self, MutationError>) {
        let len_byte = match g.draw_byte(reason) {
            Ok(b) => b,
            Err(e) => {
                return Err(e);
            },
        };
        let n = (len_byte % 8) as usize;
        let mut s = String::new();
        let mut k: usize = 0;
        while k < n
            invariant
                g.checking() == old(g).checking(),
                !g.checking(),
                n <= 7,
                k <= n,
                g.rest().len() + 1 + k == old(g).rest().len(),
            decreases n - k,
        {
            let b = match g.draw_byte(reason) {
                Ok(b) => b,
                Err(e) => {
                    return Err(e);
                },
            };
            match b % 4 {
                0 => s.append("a"),
                1 => s.append("b"),
                2 => s.append("c"),
                _ => s.append("d"),
            }
            k = k + 1;
        }
        Ok(s)
    }
}

impl<A: Bounds, B: Bounds> Bounds for (A, B) {
    type M = (A::M, B::M);

    open spec fn model(&self) -> (A::M, B::M) {
        (self.0.model(), self.1.model())
    }

    open spec fn entropy_need() -> nat {
        A::entropy_need() + B::entropy_need()
    }

    fn dup(&self) -> (r: Self) {
        (self.0.dup(), self.1.dup())
    }

    fn same(&self, other: &Self) -> (b: bool) {
        self.0.same(&other.0) && self.1.same(&other.1)
    }

    fn generate(g: &mut Generator, reason: &str) -> (r: Result<Self, MutationError>) {
        let a = match A::generate(g, reason) {
            Ok(a) => a,
            Err(e) => {
                return Err(e);
            },
        };
        let b = match B::generate(g, reason) {
            Ok(b) => b,
            Err(e) => {
                return Err(e);
            },
        };
        Ok((a, b))
    }
}

/// A minimal two-variant subject, each variant carrying one number.
#[derive(Clone, Copy, PartialEq, Eq, Structural, Debug)]
pub enum E {
    X(u32),
    Y(u32),
}

impl Bounds for E {
    type M = E;

    open spec fn model(&self) -> E {
        *self
    }

    open spec fn entropy_need() -> nat {
        5
    }

    fn dup(&self) -> (r: Self) {
        *self
    }

    fn same(&self, other: &Self) -> (b: bool) {
        *self == *other
    }

    fn generate(g: &mut Generator, reason: &str) -> (r: Result<Self, MutationError>) {
        let v = match g.draw_byte(reason) {
            Ok(b) => b,
            Err(e) => {
                return Err(e);
            },
        };
        let x = match u32::generate(g, reason) {
            Ok(x) => x,
            Err(e) => {
                return Err(e);
            },
        };
        if v % 2 == 0 {
            Ok(E::X(x))
        } else {
            Ok(E::Y(x))
        }
    }
}

/// Accessor for the payload of [`E::X`].
pub struct Ex;

impl Prism<E, u32> for Ex {
    open spec fn peek(&self, o: E) -> Option<u32> {
        match o {
            E::X(x) => Some(x),
            E::Y(_) => None,
        }
    }

    open spec fn put(&self, o: E, t: u32) -> E {
        match o {
            E::X(_) => E::X(t),
            E::Y(y) => E::Y(y),
        }
    }

    proof fn put_peek(&self, o: E, t: u32) {
    }

    proof fn put_id(&self, o: E) {
    }

    fn get_part(&self, o: &E) -> (t: Option<u32>) {
        match o {
            E::X(x) => Some(*x),
            E::Y(_) => None,
        }
    }

    fn set_part(&self, o: E, t: u32) -> (r: E) {
        match o {
            E::X(_) => E::X(t),
            E::Y(y) => E::Y(y),
        }
    }
}

/// Accessor for the payload of [`E::Y`].
pub struct Ey;

impl Prism<E, u32> for Ey {
    open spec fn peek(&self, o: E) -> Option<u32> {
        match o {
            E::X(_) => None,
            E::Y(y) => Some(y),
        }
    }

    open spec fn put(&self, o: E, t: u32) -> E {
        match o {
            E::X(x) => E::X(x),
            E::Y(_) => E::Y(t),
        }
    }

    proof fn put_peek(&self, o: E, t: u32) {
    }

    proof fn put_id(&self, o: E) {
    }

    fn get_part(&self, o: &E) -> (t: Option<u32>) {
        match o {
            E::X(_) => None,
            E::Y(y) => Some(*y),
        }
    }

    fn set_part(&self, o: E, t: u32) -> (r: E) {
        match o {
            E::X(x) => E::X(x),
            E::Y(_) => E::Y(t),
        }
    }
}

/// Accessor for the last element of a pair of pairs of pairs, as a
/// single-target traversal.
pub struct DeepSecond;

impl Optics<(u8, (u8, (u8, u8))), u8> for DeepSecond {
    open spec fn targets(&self, o: (u8, (u8, (u8, u8)))) -> Seq<u8> {
        seq![o.1.1.1]
    }

    open spec fn put_at(&self, o: (u8, (u8, (u8, u8))), i: int, t: u8) -> (u8, (u8, (u8, u8))) {
        (o.0, (o.1.0, (o.1.1.0, t)))
    }

    proof fn put_at_targets(&self, o: (u8, (u8, (u8, u8))), i: int, t: u8) {
        assert(self.targets(self.put_at(o, i, t)) =~= self.targets(o).update(i, t));
    }

    proof fn put_at_id(&self, o: (u8, (u8, (u8, u8))), i: int) {
    }

    fn count(&self, o: &(u8, (u8, (u8, u8)))) -> (n: usize) {
        1
    }

    fn get_at(&self, o: &(u8, (u8, (u8, u8))), i: usize) -> (t: u8) {
        o.1.1.1
    }

    fn set_at(&self, o: (u8, (u8, (u8, u8))), i: usize, t: u8) -> (r: (u8, (u8, (u8, u8)))) {
        (o.0, (o.1.0, (o.1.1.0, t)))
    }
}

/// Model of [`Beta`].
pub struct BetaM {
    pub id: u32,
    pub data: Seq<char>,
}

/// Model of [`Alpha`].
pub enum AlphaM {
    Beta { id: u32, beta: BetaM, data: Seq<char> },
    Nil { id: u32, data: Seq<char> },
}

/// Model of [`Omega`].
pub enum OmegaM {
    AlphaBeta { id: u32, alpha: AlphaM, beta: BetaM },
    Alpha { id: u32, alpha: AlphaM },
}

/// A record with an identifier and some payload data.
#[derive(Clone, Debug)]
pub struct Beta {
    pub id: u32,
    pub data: String,
}

/// A two-variant record; both variants carry an identifier and data, and
/// one also embeds a [`Beta`].
#[derive(Clone, Debug)]
pub enum Alpha {
    Beta { id: u32, beta: Beta, data: String },
    Nil { id: u32, data: String },
}

/// A pairing of an [`Alpha`] with an optional [`Beta`].
#[derive(Clone, Debug)]
pub struct Pi(pub Alpha, pub Option<Beta>);

/// A whole with two shapes: one holding an [`Alpha`] and a [`Beta`], and
/// one holding just an [`Alpha`].
#[derive(Clone, Debug)]
pub enum Omega {
    AlphaBeta { id: u32, alpha: Alpha, beta: Beta },
    Alpha { id: u32, alpha: Alpha },
}

impl Bounds for Beta {
    type M = BetaM;

    open spec fn model(&self) -> BetaM {
        BetaM { id: self.id, data: self.data@ }
    }

    open spec fn entropy_need() -> nat {
        u32::entropy_need() + String::entropy_need()
    }

    fn dup(&self) -> (r: Self) {
        Beta { id: self.id, data: self.data.dup() }
    }

    fn same(&self, other: &Self) -> (b: bool) {
        self.id == other.id && self.data.eq(&other.data)
    }

    fn generate(g: &mut Generator, reason: &str) -> (r: Result<Self, MutationError>) {
        let id = match u32::generate(g, reason) {
            Ok(v) => v,
            Err(e) => {
                return Err(e);
            },
        };
        let data = match String::generate(g, reason) {
            Ok(v) => v,
            Err(e) => {
                return Err(e);
            },
        };
        Ok(Beta { id, data })
    }
}

impl Bounds for Alpha {
    type M = AlphaM;

    open spec fn entropy_need() -> nat {
        1 + u32::entropy_need() + String::entropy_need() + Beta::entropy_need()
    }

    open spec fn model(&self) -> AlphaM {
        match self {
            Alpha::Beta { id, beta, data } => AlphaM::Beta {
                id: *id,
                beta: beta.model(),
                data: data@,
            },
            Alpha::Nil { id, data } => AlphaM::Nil { id: *id, data: data@ },
        }
    }

    fn dup(&self) -> (r: Self) {
        match self {
            Alpha::Beta { id, beta, data } => Alpha::Beta {
                id: *id,
                beta: beta.dup(),
                data: data.dup(),
            },
            Alpha::Nil { id, data } => Alpha::Nil { id: *id, data: data.dup() },
        }
    }

    fn same(&self, other: &Self) -> (b: bool) {
        match (self, other) {
            (
                Alpha::Beta { id: i1, beta: b1, data: d1 },
                Alpha::Beta { id: i2, beta: b2, data: d2 },
            ) => *i1 == *i2 && b1.same(b2) && d1.eq(d2),
            (Alpha::Nil { id: i1, data: d1 }, Alpha::Nil { id: i2, data: d2 }) => *i1 == *i2
                && d1.eq(d2),
            _ => false,
        }
    }

    fn generate(g: &mut Generator, reason: &str) -> (r: Result<Self, MutationError>) {
        let v = match g.draw_byte(reason) {
            Ok(b) => b,
            Err(e) => {
                return Err(e);
            },
        };
        let id = match u32::generate(g, reason) {
            Ok(x) => x,
            Err(e) => {
                return Err(e);
            },
        };
        let data = match String::generate(g, reason) {
            Ok(x) => x,
            Err(e) => {
                return Err(e);
            },
        };
        if v % 2 == 0 {
            let beta = match Beta::generate(g, reason) {
                Ok(x) => x,
                Err(e) => {
                    return Err(e);
                },
            };
            Ok(Alpha::Beta { id, beta, data })
        } else {
            Ok(Alpha::Nil { id, data })
        }
    }
}

impl Bounds for Pi {
    type M = (AlphaM, Option<BetaM>);

    open spec fn entropy_need() -> nat {
        Alpha::entropy_need() + 1 + Beta::entropy_need()
    }

    open spec fn model(&self) -> (AlphaM, Option<BetaM>) {
        (
            self.0.model(),
            match self.1 {
                Some(b) => Some(b.model()),
                None => None,
            },
        )
    }

    fn dup(&self) -> (r: Self) {
        Pi(
            self.0.dup(),
            match &self.1 {
                Some(b) => Some(b.dup()),
                None => None,
            },
        )
    }

    fn same(&self, other: &Self) -> (b: bool) {
        self.0.same(&other.0) && match (&self.1, &other.1) {
            (Some(b1), Some(b2)) => b1.same(b2),
            (None, None) => true,
            _ => false,
        }
    }

    fn generate(g: &mut Generator, reason: &str) -> (r: Result<Self, MutationError>) {
        let alpha = match Alpha::generate(g, reason) {
            Ok(x) => x,
            Err(e) => {
                return Err(e);
            },
        };
        let v = match g.draw_byte(reason) {
            Ok(b) => b,
            Err(e) => {
                return Err(e);
            },
        };
        if v % 2 == 0 {
            let beta = match Beta::generate(g, reason) {
                Ok(x) => x,
                Err(e) => {
                    return Err(e);
                },
            };
            Ok(Pi(alpha, Some(beta)))
        } else {
            Ok(Pi(alpha, None))
        }
    }
}

impl Bounds for Omega {
    type M = OmegaM;

    open spec fn entropy_need() -> nat {
        1 + u32::entropy_need() + Alpha::entropy_need() + Beta::entropy_need()
    }

    open spec fn model(&self) -> OmegaM {
        match self {
            Omega::AlphaBeta { id, alpha, beta } => OmegaM::AlphaBeta {
                id: *id,
                alpha: alpha.model(),
                beta: beta.model(),
            },
            Omega::Alpha { id, alpha } => OmegaM::Alpha { id: *id, alpha: alpha.model() },
        }
    }

    fn dup(&self) -> (r: Self) {
        match self {
            Omega::AlphaBeta { id, alpha, beta } => Omega::AlphaBeta {
                id: *id,
                alpha: alpha.dup(),
                beta: beta.dup(),
            },
            Omega::Alpha { id, alpha } => Omega::Alpha { id: *id, alpha: alpha.dup() },
        }
    }

    fn same(&self, other: &Self) -> (b: bool) {
        match (self, other) {
            (
                Omega::AlphaBeta { id: i1, alpha: a1, beta: b1 },
                Omega::AlphaBeta { id: i2, alpha: a2, beta: b2 },
            ) => *i1 == *i2 && a1.same(a2) && b1.same(b2),
            (Omega::Alpha { id: i1, alpha: a1 }, Omega::Alpha { id: i2, alpha: a2 }) => *i1 == *i2
                && a1.same(a2),
            _ => false,
        }
    }

    fn generate(g: &mut Generator, reason: &str) -> (r: Result<Self, MutationError>) {
        let v = match g.draw_byte(reason) {
            Ok(b) => b,
            Err(e) => {
                return Err(e);
            },
        };
        let id = match u32::generate(g, reason) {
            Ok(x) => x,
            Err(e) => {
                return Err(e);
            },
        };
        let alpha = match Alpha::generate(g, reason) {
            Ok(x) => x,
            Err(e) => {
                return Err(e);
            },
        };
        if v % 2 == 0 {
            let beta = match Beta::generate(g, reason) {
                Ok(x) => x,
                Err(e) => {
                    return Err(e);
                },
            };
            Ok(Omega::AlphaBeta { id, alpha, beta })
        } else {
            Ok(Omega::Alpha { id, alpha })
        }
    }
}

/// The identifier of an [`OmegaM`], whatever its shape.
pub open spec fn omega_id_m(o: OmegaM) -> u32 {
    match o {
        OmegaM::AlphaBeta { id, .. } => id,
        OmegaM::Alpha { id, .. } => id,
    }
}

/// The identifier of an [`AlphaM`], whatever its variant.
pub open spec fn alpha_id_m(a: AlphaM) -> u32 {
    match a {
        AlphaM::Beta { id, .. } => id,
        AlphaM::Nil { id, .. } => id,
    }
}

/// The data of an [`AlphaM`], whatever its variant.
pub open spec fn alpha_data_m(a: AlphaM) -> Seq<char> {
    match a {
        AlphaM::Beta { data, .. } => data,
        AlphaM::Nil { data, .. } => data,
    }
}

/// Accessor projecting an [`Omega`] onto the [`Pi`] pairing of its alpha
/// and its optional beta; writing the pairing back may change the shape of
/// the whole but keeps its identifier.
pub struct OmegaPi;

impl Lens<Omega, Pi> for OmegaPi {
    open spec fn proj(&self, o: OmegaM) -> (AlphaM, Option<BetaM>) {
        match o {
            OmegaM::AlphaBeta { alpha, beta, .. } => (alpha, Some(beta)),
            OmegaM::Alpha { alpha, .. } => (alpha, None),
        }
    }

    open spec fn put(&self, o: OmegaM, t: (AlphaM, Option<BetaM>)) -> OmegaM {
        match t.1 {
            Some(beta) => OmegaM::AlphaBeta { id: omega_id_m(o), alpha: t.0, beta },
            None => OmegaM::Alpha { id: omega_id_m(o), alpha: t.0 },
        }
    }

    proof fn put_proj(&self, o: OmegaM, t: (AlphaM, Option<BetaM>)) {
    }

    proof fn put_id(&self, o: OmegaM) {
    }

    fn get_part(&self, o: &Omega) -> (t: Pi) {
        match o {
            Omega::AlphaBeta { alpha, beta, .. } => Pi(alpha.dup(), Some(beta.dup())),
            Omega::Alpha { alpha, .. } => Pi(alpha.dup(), None),
        }
    }

    fn set_part(&self, o: Omega, t: Pi) -> (r: Omega) {
        let id = match &o {
            Omega::AlphaBeta { id, .. } => *id,
            Omega::Alpha { id, .. } => *id,
        };
        match t {
            Pi(alpha, Some(beta)) => Omega::AlphaBeta { id, alpha, beta },
            Pi(alpha, None) => Omega::Alpha { id, alpha },
        }
    }
}

/// Accessor for the identifier of an [`Omega`].
pub struct OmegaId;

impl Lens<Omega, u32> for OmegaId {
    open spec fn proj(&self, o: OmegaM) -> u32 {
        omega_id_m(o)
    }

    open spec fn put(&self, o: OmegaM, t: u32) -> OmegaM {
        match o {
            OmegaM::AlphaBeta { alpha, beta, .. } => OmegaM::AlphaBeta { id: t, alpha, beta },
            OmegaM::Alpha { alpha, .. } => OmegaM::Alpha { id: t, alpha },
        }
    }

    proof fn put_proj(&self, o: OmegaM, t: u32) {
    }

    proof fn put_id(&self, o: OmegaM) {
    }

    fn get_part(&self, o: &Omega) -> (t: u32) {
        match o {
            Omega::AlphaBeta { id, .. } => *id,
            Omega::Alpha { id, .. } => *id,
        }
    }

    fn set_part(&self, o: Omega, t: u32) -> (r: Omega) {
        match o {
            Omega::AlphaBeta { alpha, beta, .. } => Omega::AlphaBeta { id: t, alpha, beta },
            Omega::Alpha { alpha, .. } => Omega::Alpha { id: t, alpha },
        }
    }
}

/// Accessor for the identifier of an [`Alpha`].
pub struct AlphaId;

impl Lens<Alpha, u32> for AlphaId {
    open spec fn proj(&self, o: AlphaM) -> u32 {
        alpha_id_m(o)
    }

    open spec fn put(&self, o: AlphaM, t: u32) -> AlphaM {
        match o {
            AlphaM::Beta { beta, data, .. } => AlphaM::Beta { id: t, beta, data },
            AlphaM::Nil { data, .. } => AlphaM::Nil { id: t, data },
        }
    }

    proof fn put_proj(&self, o: AlphaM, t: u32) {
    }

    proof fn put_id(&self, o: AlphaM) {
    }

    fn get_part(&self, o: &Alpha) -> (t: u32) {
        match o {
            Alpha::Beta { id, .. } => *id,
            Alpha::Nil { id, .. } => *id,
        }
    }

    fn set_part(&self, o: Alpha, t: u32) -> (r: Alpha) {
        match o {
            Alpha::Beta { beta, data, .. } => Alpha::Beta { id: t, beta, data },
            Alpha::Nil { data, .. } => Alpha::Nil { id: t, data },
        }
    }
}

/// Accessor for the data of an [`Alpha`].
pub struct AlphaData;

impl Lens<Alpha, String> for AlphaData {
    open spec fn proj(&self, o: AlphaM) -> Seq<char> {
        alpha_data_m(o)
    }

    open spec fn put(&self, o: AlphaM, t: Seq<char>) -> AlphaM {
        match o {
            AlphaM::Beta { id, beta, .. } => AlphaM::Beta { id, beta, data: t },
            AlphaM::Nil { id, .. } => AlphaM::Nil { id, data: t },
        }
    }

    proof fn put_proj(&self, o: AlphaM, t: Seq<char>) {
    }

    proof fn put_id(&self, o: AlphaM) {
    }

    fn get_part(&self, o: &Alpha) -> (t: String) {
        match o {
            Alpha::Beta { data, .. } => data.dup(),
            Alpha::Nil { data, .. } => data.dup(),
        }
    }

    fn set_part(&self, o: Alpha, t: String) -> (r: Alpha) {
        match o {
            Alpha::Beta { id, beta, .. } => Alpha::Beta { id, beta, data: t },
            Alpha::Nil { id, .. } => Alpha::Nil { id, data: t },
        }
    }
}

/// Accessor for the identifier of a [`Beta`].
pub struct BetaId;

impl Lens<Beta, u32> for BetaId {
    open spec fn proj(&self, o: BetaM) -> u32 {
        o.id
    }

    open spec fn put(&self, o: BetaM, t: u32) -> BetaM {
        BetaM { id: t, data: o.data }
    }

    proof fn put_proj(&self, o: BetaM, t: u32) {
    }

    proof fn put_id(&self, o: BetaM) {
    }

    fn get_part(&self, o: &Beta) -> (t: u32) {
        o.id
    }

    fn set_part(&self, o: Beta, t: u32) -> (r: Beta) {
        Beta { id: t, data: o.data }
    }
}

/// Accessor for the [`Alpha`] half of a [`Pi`].
pub struct PiAlpha;

impl Lens<Pi, Alpha> for PiAlpha {
    open spec fn proj(&self, o: (AlphaM, Option<BetaM>)) -> AlphaM {
        o.0
    }

    open spec fn put(&self, o: (AlphaM, Option<BetaM>), t: AlphaM) -> (AlphaM, Option<BetaM>) {
        (t, o.1)
    }

    proof fn put_proj(&self, o: (AlphaM, Option<BetaM>), t: AlphaM) {
    }

    proof fn put_id(&self, o: (AlphaM, Option<BetaM>)) {
    }

    fn get_part(&self, o: &Pi) -> (t: Alpha) {
        o.0.dup()
    }

    fn set_part(&self, o: Pi, t: Alpha) -> (r: Pi) {
        Pi(t, o.1)
    }
}

/// Accessor for the optional [`Beta`] half of a [`Pi`].
pub struct PiBeta;

impl Prism<Pi, Beta> for PiBeta {
    open spec fn peek(&self, o: (AlphaM, Option<BetaM>)) -> Option<BetaM> {
        o.1
    }

    open spec fn put(&self, o: (AlphaM, Option<BetaM>), t: BetaM) -> (AlphaM, Option<BetaM>) {
        (o.0, Some(t))
    }

    proof fn put_peek(&self, o: (AlphaM, Option<BetaM>), t: BetaM) {
    }

    proof fn put_id(&self, o: (AlphaM, Option<BetaM>)) {
    }

    fn get_part(&self, o: &Pi) -> (t: Option<Beta>) {
        match &o.1 {
            Some(b) => Some(b.dup()),
            None => None,
        }
    }

    fn set_part(&self, o: Pi, t: Beta) -> (r: Pi) {
        Pi(o.0, Some(t))
    }
}

/// Predicate over a [`Pi`]: the alpha's variant corresponds to the beta's
/// presence, and when both betas exist they are equal.
pub struct PiBetaMatch;

impl Predicate<Pi> for PiBetaMatch {
    open spec fn holds(&self, m: (AlphaM, Option<BetaM>)) -> bool {
        match (m.0, m.1) {
            (AlphaM::Beta { beta, .. }, Some(b)) => beta == b,
            (AlphaM::Nil { .. }, None) => true,
            _ => false,
        }
    }

    open spec fn reason(&self, m: (AlphaM, Option<BetaM>)) -> Seq<char> {
        "alpha variant and beta presence do not correspond"@
    }

    fn test(&self, obj: &Pi) -> (r: Result<(), String>) {
        let good = match (&obj.0, &obj.1) {
            (Alpha::Beta { beta, .. }, Some(b)) => beta.same(b),
            (Alpha::Nil { .. }, None) => true,
            _ => false,
        };
        if good {
            Ok(())
        } else {
            Err("alpha variant and beta presence do not correspond".to_owned())
        }
    }
}

/// Predicate over a number: it is even.
pub struct IsEven;

impl Predicate<u32> for IsEven {
    open spec fn holds(&self, m: u32) -> bool {
        m % 2 == 0
    }

    open spec fn reason(&self, m: u32) -> Seq<char> {
        "value is odd"@
    }

    fn test(&self, obj: &u32) -> (r: Result<(), String>) {
        if *obj % 2 == 0 {
            Ok(())
        } else {
            Err("value is odd".to_owned())
        }
    }
}

/// Predicate that no value satisfies.
pub struct NeverHolds;

impl Predicate<u32> for NeverHolds {
    open spec fn holds(&self, m: u32) -> bool {
        false
    }

    open spec fn reason(&self, m: u32) -> Seq<char> {
        "no value can satisfy this constraint"@
    }

    fn test(&self, obj: &u32) -> (r: Result<(), String>) {
        Err("no value can satisfy this constraint".to_owned())
    }
}

} // verus!
