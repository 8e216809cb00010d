//! Parameters of osculating orbital-element ephemerides.

use vstd::prelude::*;

use crate::request::ephemeris::{OutUnits, RefPlane};
use crate::request::HzBool;
use crate::wire::{pairs_view, push_pair, TextPair};

verus! {

/// Determines what type of periapsis time (Tp) is returned
#[derive(Debug, Clone, Copy, PartialEq, Eq, Structural)]
pub enum TpType {
    Absolute,
    Relative,
}

impl TpType {
    /// The wire token of the periapsis time type.
    pub open spec fn token(self) -> Seq<char> {
        match self {
            TpType::Absolute => "Absolute"@,
            TpType::Relative => "Relative"@,
        }
    }

    /// The wire token of the periapsis time type.
    pub fn as_str(&self) -> (r: &'static str)
        ensures
            r@ == self.token(),
    {
        match self {
            TpType::Absolute => "Absolute",
            TpType::Relative => "Relative",
        }
    }
}

impl Default for TpType {
    fn default() -> (r: TpType)
        ensures
            r == TpType::Absolute,
    {
        TpType::Absolute
    }
}

/// Parameters of an orbital-elements ephemeris.
#[derive(Debug, Clone, Copy, PartialEq, Eq, Structural)]
pub struct Elements {
    tp_type: TpType,
    out_units: OutUnits,
    ref_plane: RefPlane,
    elm_labels: HzBool,
}

impl Elements {
    /// The periapsis time type.
    pub closed spec fn spec_tp_type(self) -> TpType {
        self.tp_type
    }

    /// The output units.
    pub closed spec fn spec_out_units(self) -> OutUnits {
        self.out_units
    }

    /// The reference plane.
    pub closed spec fn spec_ref_plane(self) -> RefPlane {
        self.ref_plane
    }

    /// Whether each element is labelled.
    pub closed spec fn spec_elm_labels(self) -> HzBool {
        self.elm_labels
    }

    /// The fields on the wire, in order.
    pub open spec fn spec_fields(self) -> Seq<TextPair> {
        seq![
            ("tp_type"@, self.spec_tp_type().token()),
            ("out_units"@, self.spec_out_units().token()),
            ("ref_plane"@, self.spec_ref_plane().token()),
            ("elm_labels"@, self.spec_elm_labels().token()),
        ]
    }

    /// Appends the fields to `out`, in order.
    pub fn write_fields(&self, out: &mut Vec<(String, String)>)
        ensures
            pairs_view(final(out)@) == pairs_view(old(out)@) + self.spec_fields(),
    {
        let ghost start = pairs_view(out@);
        push_pair(out, "tp_type", String::from_str(self.tp_type.as_str()));
        push_pair(out, "out_units", String::from_str(self.out_units.as_str()));
        push_pair(out, "ref_plane", String::from_str(self.ref_plane.as_str()));
        push_pair(out, "elm_labels", String::from_str(self.elm_labels.as_str()));
        assert(pairs_view(out@) =~= start + self.spec_fields());
    }
}

/// Accumulates the parameters of an orbital-elements ephemeris; every field has a default.
#[derive(Debug, Clone, Copy)]
pub struct ElementsBuilder {
    tp_type: TpType,
    out_units: OutUnits,
    ref_plane: RefPlane,
    elm_labels: bool,
}

impl ElementsBuilder {
    /// The periapsis time type.
    pub closed spec fn spec_tp_type(self) -> TpType {
        self.tp_type
    }

    /// The output units.
    pub closed spec fn spec_out_units(self) -> OutUnits {
        self.out_units
    }

    /// The reference plane.
    pub closed spec fn spec_ref_plane(self) -> RefPlane {
        self.ref_plane
    }

    /// Whether each element is labelled.
    pub closed spec fn spec_elm_labels(self) -> bool {
        self.elm_labels
    }

    /// Every field is at its default.
    pub open spec fn is_default(self) -> bool {
        &&& self.spec_tp_type() == TpType::Absolute
        &&& self.spec_out_units() == OutUnits::KM_S
        &&& self.spec_ref_plane() == RefPlane::Ecliptic
        &&& self.spec_elm_labels()
    }

    /// A builder with every field at its default.
    pub fn new() -> (r: ElementsBuilder)
        ensures
            r.is_default(),
    {
        ElementsBuilder {
            tp_type: TpType::Absolute,
            out_units: OutUnits::KM_S,
            ref_plane: RefPlane::Ecliptic,
            elm_labels: true,
        }
    }

    /// Sets the field `tp_type`; the others stay as they were.
    pub fn tp_type(&mut self, tp_type: TpType) -> (r: &mut Self)
        ensures
            r.spec_tp_type() == tp_type,
            r.spec_out_units() == old(self).spec_out_units(),
            r.spec_ref_plane() == old(self).spec_ref_plane(),
            r.spec_elm_labels() == old(self).spec_elm_labels(),
            *final(self) == *final(r),
    {
        self.tp_type = tp_type;
        self
    }

    /// Sets the field `out_units`; the others stay as they were.
    pub fn out_units(&mut self, out_units: OutUnits) -> (r: &mut Self)
        ensures
            r.spec_tp_type() == old(self).spec_tp_type(),
            r.spec_out_units() == out_units,
            r.spec_ref_plane() == old(self).spec_ref_plane(),
            r.spec_elm_labels() == old(self).spec_elm_labels(),
            *final(self) == *final(r),
    {
        self.out_units = out_units;
        self
    }

    /// Sets the field `ref_plane`; the others stay as they were.
    pub fn ref_plane(&mut self, ref_plane: RefPlane) -> (r: &mut Self)
        ensures
            r.spec_tp_type() == old(self).spec_tp_type(),
            r.spec_out_units() == old(self).spec_out_units(),
            r.spec_ref_plane() == ref_plane,
            r.spec_elm_labels() == old(self).spec_elm_labels(),
            *final(self) == *final(r),
    {
        self.ref_plane = ref_plane;
        self
    }

    /// Sets the field `elm_labels`; the others stay as they were.
    pub fn elm_labels(&mut self, elm_labels: bool) -> (r: &mut Self)
        ensures
            r.spec_tp_type() == old(self).spec_tp_type(),
            r.spec_out_units() == old(self).spec_out_units(),
            r.spec_ref_plane() == old(self).spec_ref_plane(),
            r.spec_elm_labels() == elm_labels,
            *final(self) == *final(r),
    {
        self.elm_labels = elm_labels;
        self
    }

    /// What building holds: the fields of the builder, with flags as `yes` or `no`.
    pub open spec fn builds(self, r: Elements) -> bool {
        &&& r.spec_tp_type() == self.spec_tp_type()
        &&& r.spec_out_units() == self.spec_out_units()
        &&& r.spec_ref_plane() == self.spec_ref_plane()
        &&& r.spec_elm_labels() == HzBool::spec_from_bool(self.spec_elm_labels())
    }

    /// The elements parameters that the builder holds; flags become `yes` or `no`.
    pub fn build(&self) -> (r: Elements)
        ensures
            self.builds(r),
    {
        Elements {
            tp_type: self.tp_type,
            out_units: self.out_units,
            ref_plane: self.ref_plane,
            elm_labels: HzBool::from(self.elm_labels),
        }
    }
}

impl Default for ElementsBuilder {
    fn default() -> (r: ElementsBuilder)
        ensures
            r.is_default(),
    {
        ElementsBuilder::new()
    }
}

/// Building twice from the same builder gives the same parameters.
pub proof fn lemma_build_repeatable(b: ElementsBuilder, r1: Elements, r2: Elements)
    requires
        b.builds(r1),
        b.builds(r2),
    ensures
        r1 == r2,
{
}

} // verus!
