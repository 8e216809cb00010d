//! Ready-made vectors queries, one per table layout.

use vstd::prelude::*;

use crate::request::ephemeris::vectors::{Correction, TableFormat, VectorsBuilder};
use crate::request::ephemeris::{EphemType, Format, OutUnits, RefPlane, RefSystem, TimeSpec};
use crate::request::{Body, Center, Command, Ephemeris, HzBool, Query, QueryBuilder};
use crate::wire::TextPair;

verus! {

/// A vectors query of `target` seen from `center` at `time`, with the table
/// layout `table` and every other field at its default.
pub open spec fn is_preset(
    q: Query,
    target: Body,
    center: Center,
    time: TimeSpec,
    table: TableFormat,
) -> bool {
    let c = q.spec_common();
    &&& c.spec_command() == Command::Body(target)
    &&& c.spec_ephem_type() == EphemType::Vectors
    &&& c.spec_center() == center
    &&& c.spec_time_spec().equiv(time)
    &&& c.spec_ref_system() == RefSystem::ICRF
    &&& c.spec_format() == Format::Text
    &&& c.spec_obj_data() == HzBool::Yes
    &&& c.spec_make_ephem() == HzBool::Yes
    &&& c.spec_csv_format() == HzBool::No
    &&& q.spec_specific() matches Ephemeris::Vectors(v) && {
        &&& v.spec_vec_table() == table
        &&& v.spec_vec_labels() == HzBool::Yes
        &&& v.spec_vec_delta_t() == HzBool::No
        &&& v.spec_vec_corr() == Correction::NONE
        &&& v.spec_out_units() == OutUnits::KM_S
        &&& v.spec_ref_plane() == RefPlane::Ecliptic
    }
}

/// Two presets of one target, center and time are written with the same
/// fields in the same order, and differ at most in the table layout.
pub proof fn lemma_presets_differ_in_table(
    q1: Query,
    q2: Query,
    target: Body,
    center: Center,
    time: TimeSpec,
    t1: TableFormat,
    t2: TableFormat,
)
    requires
        is_preset(q1, target, center, time, t1),
        is_preset(q2, target, center, time, t2),
    ensures
        q1.spec_fields().len() == q2.spec_fields().len(),
        exists|k: int|
            0 <= k < q1.spec_fields().len() && #[trigger] q1.spec_fields()[k] == (
            "vec_table"@,
            t1.token(),
        ) && q2.spec_fields()[k] == ("vec_table"@, t2.token()) && forall|i: int|
            0 <= i < q1.spec_fields().len() && i != k ==> #[trigger] q1.spec_fields()[i]
                == q2.spec_fields()[i],
{
    let c1 = q1.spec_common();
    let c2 = q2.spec_common();
    assert(c1.spec_time_spec().spec_fields() == c2.spec_time_spec().spec_fields());
    assert(c1.spec_fields() == c2.spec_fields());
    let v1 = q1.spec_specific()->Vectors_0;
    let v2 = q2.spec_specific()->Vectors_0;
    let k = c1.spec_fields().len() as int;
    let f1: Seq<TextPair> = q1.spec_fields();
    let f2: Seq<TextPair> = q2.spec_fields();
    assert(f1 == c1.spec_fields() + v1.spec_fields());
    assert(f2 == c1.spec_fields() + v2.spec_fields());
    assert(f1[k] == ("vec_table"@, t1.token()));
    assert(f2[k] == ("vec_table"@, t2.token()));
    assert forall|i: int| 0 <= i < f1.len() && i != k implies f1[i] == f2[i] by {
        if i > k {
            assert(v1.spec_fields()[i - k] == v2.spec_fields()[i - k]);
        }
    }
}

/// State vectors {x,y,z,Vx,Vy,Vz}.
pub fn state_vectors(target: Body, center: Center, time: TimeSpec) -> (r: Query)
    ensures
        is_preset(r, target, center, time, TableFormat::State),
{
    preset(target, center, time, TableFormat::State)
}

/// Position components {x,y,z} only.
pub fn position_vectors(target: Body, center: Center, time: TimeSpec) -> (r: Query)
    ensures
        is_preset(r, target, center, time, TableFormat::Position),
{
    preset(target, center, time, TableFormat::Position)
}

/// Velocity components {vx,vy,vz} only.
pub fn velocity_vector(target: Body, center: Center, time: TimeSpec) -> (r: Query)
    ensures
        is_preset(r, target, center, time, TableFormat::Velocity),
{
    preset(target, center, time, TableFormat::Velocity)
}

/// One-way light-time, range and range-rate.
pub fn light_time_vectors(target: Body, center: Center, time: TimeSpec) -> (r: Query)
    ensures
        is_preset(r, target, center, time, TableFormat::LT),
{
    preset(target, center, time, TableFormat::LT)
}

fn preset(target: Body, center: Center, time: TimeSpec, table: TableFormat) -> (r: Query)
    ensures
        is_preset(r, target, center, time, table),
{
    let mut query = vectors(target, center, time);
    query.specific.table_format(table);
    query.build().unwrap()
}

fn vectors(target: Body, center: Center, time: TimeSpec) -> (r: QueryBuilder<VectorsBuilder>)
    ensures
        r.common.spec_command() == Some(Command::Body(target)),
        r.common.spec_ephem_type() == Some(EphemType::Vectors),
        r.common.spec_center() == Some(center),
        r.common.spec_time_spec() == Some(time),
        r.common.spec_ref_system() == RefSystem::ICRF,
        r.common.spec_format() == Format::Text,
        r.common.spec_obj_data(),
        r.common.spec_make_ephem(),
        !r.common.spec_csv_format(),
        r.specific.is_default(),
{
    let mut query = Query::vectors();
    query.common.command(Command::Body(target)).center(center).time_spec(time);
    query
}

} // verus!
