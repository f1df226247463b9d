use vstd::prelude::*;

use crate::fractal::{Fractal, FractalType};
use crate::pen_detector::{is_pen, spec_is_pen};

verus! {

#[derive(Debug, Clone, Copy, PartialEq, Eq, Structural)]
pub enum PenType {
    Up,
    Down,
}

#[derive(Debug, Clone, Copy, PartialEq, Eq, Structural)]
pub enum PenStatus {
    New,
    Complete,
    Continue,
}

/// The direction of a pen that starts at a fractal of type `t`.
pub open spec fn pen_type_from(t: FractalType) -> PenType {
    if t == FractalType::Top {
        PenType::Down
    } else {
        PenType::Up
    }
}

/// A stroke from one fractal to a fractal of the other type.
#[derive(Debug, Clone, Copy)]
pub struct Pen {
    from: Fractal,
    to: Fractal,
    ptype: PenType,
    status: PenStatus,
}

impl Pen {
    pub closed spec fn spec_from(&self) -> Fractal {
        self.from
    }

    pub closed spec fn spec_to(&self) -> Fractal {
        self.to
    }

    pub closed spec fn spec_ptype(&self) -> PenType {
        self.ptype
    }

    pub closed spec fn spec_status(&self) -> PenStatus {
        self.status
    }

    /// The two ends make a pen, and the direction is the one that its start
    /// implies.
    pub open spec fn wf(&self) -> bool {
        &&& spec_is_pen(self.spec_from(), self.spec_to())
        &&& self.spec_ptype() == pen_type_from(self.spec_from().ftype)
    }

    /// An up pen ends above the low of its start, a down pen below the high
    /// of its start.
    pub proof fn lemma_pen_direction(&self)
        requires
            self.wf(),
            self.spec_from().wf(),
            self.spec_from().candles_valid(),
        ensures
            self.spec_ptype() == PenType::Up ==> self.spec_to().spec_highest()
                > self.spec_from().spec_lowest(),
            self.spec_ptype() == PenType::Down ==> self.spec_to().spec_lowest()
                < self.spec_from().spec_highest(),
    {
    }

    pub fn new(from: Fractal, to: Fractal) -> (r: Pen)
        requires
            spec_is_pen(from, to),
        ensures
            r.wf(),
            r.spec_from() == from,
            r.spec_to() == to,
            r.spec_ptype() == pen_type_from(from.ftype),
            r.spec_status() == PenStatus::New,
    {
        let ptype = if from.fractal_type() == FractalType::Top {
            PenType::Down
        } else {
            PenType::Up
        };
        Pen { from, to, ptype, status: PenStatus::New }
    }

    /// Moves the end of the pen to `to`.
    pub fn update_to(&mut self, to: Fractal)
        requires
            spec_is_pen(old(self).spec_from(), to),
        ensures
            final(self).spec_from() == old(self).spec_from(),
            final(self).spec_to() == to,
            final(self).spec_ptype() == old(self).spec_ptype(),
            final(self).spec_status() == PenStatus::Continue,
            old(self).wf() ==> final(self).wf(),
    {
        self.to = to;
        self.status = PenStatus::Continue;
    }

    pub fn commit(&mut self)
        ensures
            final(self).spec_from() == old(self).spec_from(),
            final(self).spec_to() == old(self).spec_to(),
            final(self).spec_ptype() == old(self).spec_ptype(),
            final(self).spec_status() == PenStatus::Complete,
    {
        self.status = PenStatus::Complete;
    }

    pub fn from(&self) -> (r: &Fractal)
        ensures
            *r == self.spec_from(),
    {
        &self.from
    }

    pub fn to(&self) -> (r: &Fractal)
        ensures
            *r == self.spec_to(),
    {
        &self.to
    }

    pub fn pen_type(&self) -> (r: PenType)
        ensures
            r == self.spec_ptype(),
    {
        self.ptype
    }

    pub fn status(&self) -> (r: PenStatus)
        ensures
            r == self.spec_status(),
    {
        self.status
    }

    /// Whether `to` may become the new end of this pen.
    pub fn can_update_to(&self, to: &Fractal) -> (r: bool)
        ensures
            r == spec_is_pen(self.spec_from(), *to),
    {
        is_pen(&self.from, to)
    }
}

} // verus!
