//! Parameters of state-vector ephemerides.

use vstd::prelude::*;

use crate::request::ephemeris::{OutUnits, RefPlane};
use crate::request::HzBool;
use crate::wire::{decimal, decimal_text, pairs_view, push_pair, TextPair};

verus! {

/// Which quantities a vectors table holds.
#[allow(non_camel_case_types)]
#[derive(Debug, Clone, Copy, PartialEq, Eq, Structural)]
pub enum TableFormat {
    /// Position components {x,y,z} only (with optional statistical request codes)
    Position,
    /// State vector {x,y,z,Vx,Vy,Vz} (with optional statistical request codes)
    State,
    /// State vector, 1-way light-time, range, and range-rate
    State_LT,
    /// Position, 1-way light-time, range, and range-rate
    Position_LT,
    /// Velocity components {vx, vy, vz} only
    Velocity,
    /// 1-way light-time, range, and range-rate
    LT,
}

impl TableFormat {
    /// The code of the table format.
    pub open spec fn spec_code(self) -> u8 {
        match self {
            TableFormat::Position => 1,
            TableFormat::State => 2,
            TableFormat::State_LT => 3,
            TableFormat::Position_LT => 4,
            TableFormat::Velocity => 5,
            TableFormat::LT => 6,
        }
    }

    /// The wire token: the code in decimal.
    pub open spec fn token(self) -> Seq<char> {
        decimal(self.spec_code() as nat)
    }

    /// The code of the table format.
    pub fn code(&self) -> (r: u8)
        ensures
            r == self.spec_code(),
    {
        match self {
            TableFormat::Position => 1,
            TableFormat::State => 2,
            TableFormat::State_LT => 3,
            TableFormat::Position_LT => 4,
            TableFormat::Velocity => 5,
            TableFormat::LT => 6,
        }
    }

    /// The wire token: the code in decimal.
    pub fn to_text(&self) -> (r: String)
        ensures
            r@ == self.token(),
    {
        decimal_text(self.code() as u64)
    }
}

impl Default for TableFormat {
    fn default() -> (r: TableFormat)
        ensures
            r == TableFormat::State_LT,
    {
        TableFormat::State_LT
    }
}

impl From<TableFormat> for u8 {
    fn from(t: TableFormat) -> (r: u8) {
        t.code()
    }
}

impl vstd::std_specs::convert::FromSpecImpl<TableFormat> for u8 {
    open spec fn obeys_from_spec() -> bool {
        true
    }

    open spec fn from_spec(t: TableFormat) -> u8 {
        t.spec_code()
    }
}

/// The aberration corrections applied to the vectors.
#[allow(non_camel_case_types)]
#[derive(Debug, Clone, Copy, PartialEq, Eq, Structural)]
pub enum Correction {
    NONE,
    LT,
    LT_S,
}

impl Correction {
    /// The wire token of the correction.
    pub open spec fn token(self) -> Seq<char> {
        match self {
            Correction::NONE => "NONE"@,
            Correction::LT => "LT"@,
            Correction::LT_S => "LT+S"@,
        }
    }

    /// The wire token of the correction.
    pub fn as_str(&self) -> (r: &'static str)
        ensures
            r@ == self.token(),
    {
        match self {
            Correction::NONE => "NONE",
            Correction::LT => "LT",
            Correction::LT_S => "LT+S",
        }
    }
}

impl Default for Correction {
    fn default() -> (r: Correction)
        ensures
            r == Correction::NONE,
    {
        Correction::NONE
    }
}

/// Parameters of a vectors ephemeris.
#[derive(Debug, Clone, Copy, PartialEq, Eq, Structural)]
pub struct Vectors {
    vec_table: TableFormat,
    vec_labels: HzBool,
    vec_delta_t: HzBool,
    vec_corr: Correction,
    out_units: OutUnits,
    ref_plane: RefPlane,
}

impl Vectors {
    /// The layout of the table.
    pub closed spec fn spec_vec_table(self) -> TableFormat {
        self.vec_table
    }

    /// Whether each vector is labelled.
    pub closed spec fn spec_vec_labels(self) -> HzBool {
        self.vec_labels
    }

    /// Whether TDB-UT is given.
    pub closed spec fn spec_vec_delta_t(self) -> HzBool {
        self.vec_delta_t
    }

    /// The aberration correction.
    pub closed spec fn spec_vec_corr(self) -> Correction {
        self.vec_corr
    }

    /// The output units.
    pub closed spec fn spec_out_units(self) -> OutUnits {
        self.out_units
    }

    /// The reference plane.
    pub closed spec fn spec_ref_plane(self) -> RefPlane {
        self.ref_plane
    }

    /// The fields on the wire, in order.
    pub open spec fn spec_fields(self) -> Seq<TextPair> {
        seq![
            ("vec_table"@, self.spec_vec_table().token()),
            ("vec_labels"@, self.spec_vec_labels().token()),
            ("vec_delta_t"@, self.spec_vec_delta_t().token()),
            ("vec_corr"@, self.spec_vec_corr().token()),
            ("out_units"@, self.spec_out_units().token()),
            ("ref_plane"@, self.spec_ref_plane().token()),
        ]
    }

    /// Appends the fields to `out`, in order.
    pub fn write_fields(&self, out: &mut Vec<(String, String)>)
        ensures
            pairs_view(final(out)@) == pairs_view(old(out)@) + self.spec_fields(),
    {
        let ghost start = pairs_view(out@);
        push_pair(out, "vec_table", self.vec_table.to_text());
        push_pair(out, "vec_labels", String::from_str(self.vec_labels.as_str()));
        push_pair(out, "vec_delta_t", String::from_str(self.vec_delta_t.as_str()));
        push_pair(out, "vec_corr", String::from_str(self.vec_corr.as_str()));
        push_pair(out, "out_units", String::from_str(self.out_units.as_str()));
        push_pair(out, "ref_plane", String::from_str(self.ref_plane.as_str()));
        assert(pairs_view(out@) =~= start + self.spec_fields());
    }
}

/// Accumulates the parameters of a vectors ephemeris; every field has a default.
#[derive(Debug, Clone, Copy)]
pub struct VectorsBuilder {
    vec_table: TableFormat,
    vec_labels: bool,
    vec_delta_t: bool,
    vec_corr: Correction,
    out_units: OutUnits,
    ref_plane: RefPlane,
}

impl VectorsBuilder {
    /// The layout of the table.
    pub closed spec fn spec_vec_table(self) -> TableFormat {
        self.vec_table
    }

    /// Whether each vector is labelled.
    pub closed spec fn spec_vec_labels(self) -> bool {
        self.vec_labels
    }

    /// Whether TDB-UT is given.
    pub closed spec fn spec_vec_delta_t(self) -> bool {
        self.vec_delta_t
    }

    /// The aberration correction.
    pub closed spec fn spec_vec_corr(self) -> Correction {
        self.vec_corr
    }

    /// The output units.
    pub closed spec fn spec_out_units(self) -> OutUnits {
        self.out_units
    }

    /// The reference plane.
    pub closed spec fn spec_ref_plane(self) -> RefPlane {
        self.ref_plane
    }

    /// Every field is at its default.
    pub open spec fn is_default(self) -> bool {
        &&& self.spec_vec_table() == TableFormat::State_LT
        &&& self.spec_vec_labels()
        &&& !self.spec_vec_delta_t()
        &&& self.spec_vec_corr() == Correction::NONE
        &&& self.spec_out_units() == OutUnits::KM_S
        &&& self.spec_ref_plane() == RefPlane::Ecliptic
    }

    /// A builder with every field at its default.
    pub fn new() -> (r: VectorsBuilder)
        ensures
            r.is_default(),
    {
        VectorsBuilder {
            vec_table: TableFormat::State_LT,
            vec_labels: true,
            vec_delta_t: false,
            vec_corr: Correction::NONE,
            out_units: OutUnits::KM_S,
            ref_plane: RefPlane::Ecliptic,
        }
    }

    /// Sets the field `vec_table`; the others stay as they were.
    pub fn table_format(&mut self, vec_table: TableFormat) -> (r: &mut Self)
        ensures
            r.spec_vec_table() == vec_table,
            r.spec_vec_labels() == old(self).spec_vec_labels(),
            r.spec_vec_delta_t() == old(self).spec_vec_delta_t(),
            r.spec_vec_corr() == old(self).spec_vec_corr(),
            r.spec_out_units() == old(self).spec_out_units(),
            r.spec_ref_plane() == old(self).spec_ref_plane(),
            *final(self) == *final(r),
    {
        self.vec_table = vec_table;
        self
    }

    /// Sets the field `vec_labels`; the others stay as they were.
    pub fn vec_labels(&mut self, vec_labels: bool) -> (r: &mut Self)
        ensures
            r.spec_vec_table() == old(self).spec_vec_table(),
            r.spec_vec_labels() == vec_labels,
            r.spec_vec_delta_t() == old(self).spec_vec_delta_t(),
            r.spec_vec_corr() == old(self).spec_vec_corr(),
            r.spec_out_units() == old(self).spec_out_units(),
            r.spec_ref_plane() == old(self).spec_ref_plane(),
            *final(self) == *final(r),
    {
        self.vec_labels = vec_labels;
        self
    }

    /// Sets the field `vec_delta_t`; the others stay as they were.
    pub fn vec_delta_t(&mut self, vec_delta_t: bool) -> (r: &mut Self)
        ensures
            r.spec_vec_table() == old(self).spec_vec_table(),
            r.spec_vec_labels() == old(self).spec_vec_labels(),
            r.spec_vec_delta_t() == vec_delta_t,
            r.spec_vec_corr() == old(self).spec_vec_corr(),
            r.spec_out_units() == old(self).spec_out_units(),
            r.spec_ref_plane() == old(self).spec_ref_plane(),
            *final(self) == *final(r),
    {
        self.vec_delta_t = vec_delta_t;
        self
    }

    /// Sets the field `vec_corr`; the others stay as they were.
    pub fn vec_corr(&mut self, vec_corr: Correction) -> (r: &mut Self)
        ensures
            r.spec_vec_table() == old(self).spec_vec_table(),
            r.spec_vec_labels() == old(self).spec_vec_labels(),
            r.spec_vec_delta_t() == old(self).spec_vec_delta_t(),
            r.spec_vec_corr() == vec_corr,
            r.spec_out_units() == old(self).spec_out_units(),
            r.spec_ref_plane() == old(self).spec_ref_plane(),
            *final(self) == *final(r),
    {
        self.vec_corr = vec_corr;
        self
    }

    /// Sets the field `out_units`; the others stay as they were.
    pub fn out_units(&mut self, out_units: OutUnits) -> (r: &mut Self)
        ensures
            r.spec_vec_table() == old(self).spec_vec_table(),
            r.spec_vec_labels() == old(self).spec_vec_labels(),
            r.spec_vec_delta_t() == old(self).spec_vec_delta_t(),
            r.spec_vec_corr() == old(self).spec_vec_corr(),
            r.spec_out_units() == out_units,
            r.spec_ref_plane() == old(self).spec_ref_plane(),
            *final(self) == *final(r),
    {
        self.out_units = out_units;
        self
    }

    /// Sets the field `ref_plane`; the others stay as they were.
    pub fn ref_plane(&mut self, ref_plane: RefPlane) -> (r: &mut Self)
        ensures
            r.spec_vec_table() == old(self).spec_vec_table(),
            r.spec_vec_labels() == old(self).spec_vec_labels(),
            r.spec_vec_delta_t() == old(self).spec_vec_delta_t(),
            r.spec_vec_corr() == old(self).spec_vec_corr(),
            r.spec_out_units() == old(self).spec_out_units(),
            r.spec_ref_plane() == ref_plane,
            *final(self) == *final(r),
    {
        self.ref_plane = ref_plane;
        self
    }

    /// What building holds: the fields of the builder, with flags as `yes` or `no`.
    pub open spec fn builds(self, r: Vectors) -> bool {
        &&& r.spec_vec_table() == self.spec_vec_table()
        &&& r.spec_vec_labels() == HzBool::spec_from_bool(self.spec_vec_labels())
        &&& r.spec_vec_delta_t() == HzBool::spec_from_bool(self.spec_vec_delta_t())
        &&& r.spec_vec_corr() == self.spec_vec_corr()
        &&& r.spec_out_units() == self.spec_out_units()
        &&& r.spec_ref_plane() == self.spec_ref_plane()
    }

    /// The vectors parameters that the builder holds; flags become `yes` or `no`.
    pub fn build(&self) -> (r: Vectors)
        ensures
            self.builds(r),
    {
        Vectors {
            vec_table: self.vec_table,
            vec_labels: HzBool::from(self.vec_labels),
            vec_delta_t: HzBool::from(self.vec_delta_t),
            vec_corr: self.vec_corr,
            out_units: self.out_units,
            ref_plane: self.ref_plane,
        }
    }
}

impl Default for VectorsBuilder {
    fn default() -> (r: VectorsBuilder)
        ensures
            r.is_default(),
    {
        VectorsBuilder::new()
    }
}

/// Building twice from the same builder gives the same parameters.
pub proof fn lemma_build_repeatable(b: VectorsBuilder, r1: Vectors, r2: Vectors)
    requires
        b.builds(r1),
        b.builds(r2),
    ensures
        r1 == r2,
{
}

} // verus!
