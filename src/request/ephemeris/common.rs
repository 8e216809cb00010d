//! Parameters common to every ephemeris type, and their builder.

use vstd::prelude::*;

use crate::request::ephemeris::{EphemType, Format, RefSystem, TimeSpec};
use crate::request::{Center, Command, HzBool};
use crate::wire::{pairs_view, push_pair, TextPair};

verus! {

/// The parameters common to every ephemeris type.
#[derive(Debug, PartialEq, Eq)]
pub struct Common {
    command: Command,
    ephem_type: EphemType,
    center: Center,
    ref_system: RefSystem,
    format: Format,
    obj_data: HzBool,
    make_ephem: HzBool,
    csv_format: HzBool,
    time_spec: TimeSpec,
}

impl Common {
    /// The target of the query.
    pub closed spec fn spec_command(self) -> Command {
        self.command
    }

    /// The ephemeris type.
    pub closed spec fn spec_ephem_type(self) -> EphemType {
        self.ephem_type
    }

    /// The reference center.
    pub closed spec fn spec_center(self) -> Center {
        self.center
    }

    /// The reference system.
    pub closed spec fn spec_ref_system(self) -> RefSystem {
        self.ref_system
    }

    /// The format of the answer.
    pub closed spec fn spec_format(self) -> Format {
        self.format
    }

    /// Whether the object summary is included.
    pub closed spec fn spec_obj_data(self) -> HzBool {
        self.obj_data
    }

    /// Whether the ephemeris is generated.
    pub closed spec fn spec_make_ephem(self) -> HzBool {
        self.make_ephem
    }

    /// Whether tables are written as CSV.
    pub closed spec fn spec_csv_format(self) -> HzBool {
        self.csv_format
    }

    /// When the ephemeris is tabulated.
    pub closed spec fn spec_time_spec(self) -> TimeSpec {
        self.time_spec
    }

    /// Two parameter blocks say the same: equal fields, and time
    /// specifications that say the same.
    pub open spec fn equiv(self, other: Common) -> bool {
        &&& self.spec_command() == other.spec_command()
        &&& self.spec_ephem_type() == other.spec_ephem_type()
        &&& self.spec_center() == other.spec_center()
        &&& self.spec_ref_system() == other.spec_ref_system()
        &&& self.spec_format() == other.spec_format()
        &&& self.spec_obj_data() == other.spec_obj_data()
        &&& self.spec_make_ephem() == other.spec_make_ephem()
        &&& self.spec_csv_format() == other.spec_csv_format()
        &&& self.spec_time_spec().equiv(other.spec_time_spec())
    }

    /// The fields on the wire, in order; the time specification last.
    pub open spec fn spec_fields(self) -> Seq<TextPair> {
        seq![
            ("command"@, self.spec_command().token()),
            ("ephem_type"@, self.spec_ephem_type().token()),
            ("center"@, self.spec_center().token()),
            ("ref_system"@, self.spec_ref_system().token()),
            ("format"@, self.spec_format().token()),
            ("obj_data"@, self.spec_obj_data().token()),
            ("make_ephem"@, self.spec_make_ephem().token()),
            ("csv_format"@, self.spec_csv_format().token()),
        ] + self.spec_time_spec().spec_fields()
    }

    /// Appends the fields to `out`, in order.
    pub fn write_fields(&self, out: &mut Vec<(String, String)>)
        ensures
            pairs_view(final(out)@) == pairs_view(old(out)@) + self.spec_fields(),
    {
        let ghost start = pairs_view(out@);
        push_pair(out, "command", self.command.to_text());
        push_pair(out, "ephem_type", String::from_str(self.ephem_type.as_str()));
        push_pair(out, "center", self.center.to_text());
        push_pair(out, "ref_system", String::from_str(self.ref_system.as_str()));
        push_pair(out, "format", String::from_str(self.format.as_str()));
        push_pair(out, "obj_data", String::from_str(self.obj_data.as_str()));
        push_pair(out, "make_ephem", String::from_str(self.make_ephem.as_str()));
        push_pair(out, "csv_format", String::from_str(self.csv_format.as_str()));
        self.time_spec.write_fields(out);
        assert(pairs_view(out@) =~= start + self.spec_fields());
    }
}

impl Clone for Common {
    fn clone(&self) -> (r: Common)
        ensures
            r.equiv(*self),
    {
        Common {
            command: self.command.clone(),
            ephem_type: self.ephem_type,
            center: self.center.clone(),
            ref_system: self.ref_system,
            format: self.format,
            obj_data: self.obj_data,
            make_ephem: self.make_ephem,
            csv_format: self.csv_format,
            time_spec: self.time_spec.clone(),
        }
    }
}

/// Why a builder could not build.
#[derive(Debug, Clone, Copy, PartialEq, Eq)]
pub enum CommonBuilderError {
    /// The named required field was never set.
    UninitializedField(&'static str),
}

impl CommonBuilderError {
    /// The name of the field that was never set.
    pub open spec fn spec_field(self) -> Seq<char> {
        match self {
            CommonBuilderError::UninitializedField(name) => name@,
        }
    }
}

/// Accumulates the common parameters. The target, the ephemeris type, the
/// center and the time specification must be set; the rest have defaults.
#[derive(Debug)]
pub struct CommonBuilder {
    command: Option<Command>,
    ephem_type: Option<EphemType>,
    center: Option<Center>,
    ref_system: RefSystem,
    time_spec: Option<TimeSpec>,
    format: Format,
    obj_data: bool,
    make_ephem: bool,
    csv_format: bool,
}

impl CommonBuilder {
    /// The target of the query.
    pub closed spec fn spec_command(self) -> Option<Command> {
        self.command
    }

    /// The ephemeris type.
    pub closed spec fn spec_ephem_type(self) -> Option<EphemType> {
        self.ephem_type
    }

    /// The reference center.
    pub closed spec fn spec_center(self) -> Option<Center> {
        self.center
    }

    /// The reference system.
    pub closed spec fn spec_ref_system(self) -> RefSystem {
        self.ref_system
    }

    /// When the ephemeris is tabulated.
    pub closed spec fn spec_time_spec(self) -> Option<TimeSpec> {
        self.time_spec
    }

    /// The format of the answer.
    pub closed spec fn spec_format(self) -> Format {
        self.format
    }

    /// Whether the object summary is included.
    pub closed spec fn spec_obj_data(self) -> bool {
        self.obj_data
    }

    /// Whether the ephemeris is generated.
    pub closed spec fn spec_make_ephem(self) -> bool {
        self.make_ephem
    }

    /// Whether tables are written as CSV.
    pub closed spec fn spec_csv_format(self) -> bool {
        self.csv_format
    }

    /// The first required field, in declared order, that is not set.
    pub open spec fn first_missing(self) -> Option<Seq<char>> {
        if self.spec_command() is None {
            Some("command"@)
        } else if self.spec_ephem_type() is None {
            Some("ephem_type"@)
        } else if self.spec_center() is None {
            Some("center"@)
        } else if self.spec_time_spec() is None {
            Some("time_spec"@)
        } else {
            None
        }
    }

    /// What a successful build holds: the set fields, with flags as `yes`
    /// or `no`.
    pub open spec fn builds(self, c: Common) -> bool {
        &&& c.spec_command() == self.spec_command().unwrap()
        &&& c.spec_ephem_type() == self.spec_ephem_type().unwrap()
        &&& c.spec_center() == self.spec_center().unwrap()
        &&& c.spec_ref_system() == self.spec_ref_system()
        &&& c.spec_format() == self.spec_format()
        &&& c.spec_obj_data() == HzBool::spec_from_bool(self.spec_obj_data())
        &&& c.spec_make_ephem() == HzBool::spec_from_bool(self.spec_make_ephem())
        &&& c.spec_csv_format() == HzBool::spec_from_bool(self.spec_csv_format())
        &&& c.spec_time_spec().equiv(self.spec_time_spec().unwrap())
    }

    /// No required field but the ephemeris type is set, and the others are at their defaults.
    pub open spec fn is_fresh(self) -> bool {
        &&& self.spec_command() is None
        &&& self.spec_center() is None
        &&& self.spec_ref_system() == RefSystem::ICRF
        &&& self.spec_time_spec() is None
        &&& self.spec_format() == Format::Text
        &&& self.spec_obj_data()
        &&& self.spec_make_ephem()
        &&& !self.spec_csv_format()
    }

    /// What building yields: the parameters that the builder holds, or the
    /// first required field that is not set.
    pub open spec fn build_post(self, r: Result<Common, CommonBuilderError>) -> bool {
        &&& r is Ok <==> self.first_missing() is None
        &&& r matches Ok(c) ==> self.builds(c)
        &&& r matches Err(e) ==> self.first_missing() == Some(e.spec_field())
    }

    /// A builder with no required field set and the others at their defaults.
    pub fn new() -> (r: CommonBuilder)
        ensures
            r.is_fresh(),
            r.spec_ephem_type() is None,
    {
        CommonBuilder {
            command: None,
            ephem_type: None,
            center: None,
            ref_system: RefSystem::ICRF,
            time_spec: None,
            format: Format::Text,
            obj_data: true,
            make_ephem: true,
            csv_format: false,
        }
    }

    /// Sets the field `command`; the others stay as they were.
    pub fn command(&mut self, command: Command) -> (r: &mut Self)
        ensures
            r.spec_command() == Some(command),
            r.spec_ephem_type() == old(self).spec_ephem_type(),
            r.spec_center() == old(self).spec_center(),
            r.spec_ref_system() == old(self).spec_ref_system(),
            r.spec_time_spec() == old(self).spec_time_spec(),
            r.spec_format() == old(self).spec_format(),
            r.spec_obj_data() == old(self).spec_obj_data(),
            r.spec_make_ephem() == old(self).spec_make_ephem(),
            r.spec_csv_format() == old(self).spec_csv_format(),
            *final(self) == *final(r),
    {
        self.command = Some(command);
        self
    }

    /// Sets the field `ephem_type`; the others stay as they were.
    pub fn ephem_type(&mut self, ephem_type: EphemType) -> (r: &mut Self)
        ensures
            r.spec_command() == old(self).spec_command(),
            r.spec_ephem_type() == Some(ephem_type),
            r.spec_center() == old(self).spec_center(),
            r.spec_ref_system() == old(self).spec_ref_system(),
            r.spec_time_spec() == old(self).spec_time_spec(),
            r.spec_format() == old(self).spec_format(),
            r.spec_obj_data() == old(self).spec_obj_data(),
            r.spec_make_ephem() == old(self).spec_make_ephem(),
            r.spec_csv_format() == old(self).spec_csv_format(),
            *final(self) == *final(r),
    {
        self.ephem_type = Some(ephem_type);
        self
    }

    /// Sets the field `center`; the others stay as they were.
    pub fn center(&mut self, center: Center) -> (r: &mut Self)
        ensures
            r.spec_command() == old(self).spec_command(),
            r.spec_ephem_type() == old(self).spec_ephem_type(),
            r.spec_center() == Some(center),
            r.spec_ref_system() == old(self).spec_ref_system(),
            r.spec_time_spec() == old(self).spec_time_spec(),
            r.spec_format() == old(self).spec_format(),
            r.spec_obj_data() == old(self).spec_obj_data(),
            r.spec_make_ephem() == old(self).spec_make_ephem(),
            r.spec_csv_format() == old(self).spec_csv_format(),
            *final(self) == *final(r),
    {
        self.center = Some(center);
        self
    }

    /// Sets the field `ref_system`; the others stay as they were.
    pub fn ref_system(&mut self, ref_system: RefSystem) -> (r: &mut Self)
        ensures
            r.spec_command() == old(self).spec_command(),
            r.spec_ephem_type() == old(self).spec_ephem_type(),
            r.spec_center() == old(self).spec_center(),
            r.spec_ref_system() == ref_system,
            r.spec_time_spec() == old(self).spec_time_spec(),
            r.spec_format() == old(self).spec_format(),
            r.spec_obj_data() == old(self).spec_obj_data(),
            r.spec_make_ephem() == old(self).spec_make_ephem(),
            r.spec_csv_format() == old(self).spec_csv_format(),
            *final(self) == *final(r),
    {
        self.ref_system = ref_system;
        self
    }

    /// Sets the field `time_spec`; the others stay as they were.
    pub fn time_spec(&mut self, time_spec: TimeSpec) -> (r: &mut Self)
        ensures
            r.spec_command() == old(self).spec_command(),
            r.spec_ephem_type() == old(self).spec_ephem_type(),
            r.spec_center() == old(self).spec_center(),
            r.spec_ref_system() == old(self).spec_ref_system(),
            r.spec_time_spec() == Some(time_spec),
            r.spec_format() == old(self).spec_format(),
            r.spec_obj_data() == old(self).spec_obj_data(),
            r.spec_make_ephem() == old(self).spec_make_ephem(),
            r.spec_csv_format() == old(self).spec_csv_format(),
            *final(self) == *final(r),
    {
        self.time_spec = Some(time_spec);
        self
    }

    /// Sets the field `format`; the others stay as they were.
    pub fn format(&mut self, format: Format) -> (r: &mut Self)
        ensures
            r.spec_command() == old(self).spec_command(),
            r.spec_ephem_type() == old(self).spec_ephem_type(),
            r.spec_center() == old(self).spec_center(),
            r.spec_ref_system() == old(self).spec_ref_system(),
            r.spec_time_spec() == old(self).spec_time_spec(),
            r.spec_format() == format,
            r.spec_obj_data() == old(self).spec_obj_data(),
            r.spec_make_ephem() == old(self).spec_make_ephem(),
            r.spec_csv_format() == old(self).spec_csv_format(),
            *final(self) == *final(r),
    {
        self.format = format;
        self
    }

    /// Sets the field `obj_data`; the others stay as they were.
    pub fn obj_data(&mut self, obj_data: bool) -> (r: &mut Self)
        ensures
            r.spec_command() == old(self).spec_command(),
            r.spec_ephem_type() == old(self).spec_ephem_type(),
            r.spec_center() == old(self).spec_center(),
            r.spec_ref_system() == old(self).spec_ref_system(),
            r.spec_time_spec() == old(self).spec_time_spec(),
            r.spec_format() == old(self).spec_format(),
            r.spec_obj_data() == obj_data,
            r.spec_make_ephem() == old(self).spec_make_ephem(),
            r.spec_csv_format() == old(self).spec_csv_format(),
            *final(self) == *final(r),
    {
        self.obj_data = obj_data;
        self
    }

    /// Sets the field `make_ephem`; the others stay as they were.
    pub fn make_ephem(&mut self, make_ephem: bool) -> (r: &mut Self)
        ensures
            r.spec_command() == old(self).spec_command(),
            r.spec_ephem_type() == old(self).spec_ephem_type(),
            r.spec_center() == old(self).spec_center(),
            r.spec_ref_system() == old(self).spec_ref_system(),
            r.spec_time_spec() == old(self).spec_time_spec(),
            r.spec_format() == old(self).spec_format(),
            r.spec_obj_data() == old(self).spec_obj_data(),
            r.spec_make_ephem() == make_ephem,
            r.spec_csv_format() == old(self).spec_csv_format(),
            *final(self) == *final(r),
    {
        self.make_ephem = make_ephem;
        self
    }

    /// Sets the field `csv_format`; the others stay as they were.
    pub fn csv_format(&mut self, csv_format: bool) -> (r: &mut Self)
        ensures
            r.spec_command() == old(self).spec_command(),
            r.spec_ephem_type() == old(self).spec_ephem_type(),
            r.spec_center() == old(self).spec_center(),
            r.spec_ref_system() == old(self).spec_ref_system(),
            r.spec_time_spec() == old(self).spec_time_spec(),
            r.spec_format() == old(self).spec_format(),
            r.spec_obj_data() == old(self).spec_obj_data(),
            r.spec_make_ephem() == old(self).spec_make_ephem(),
            r.spec_csv_format() == csv_format,
            *final(self) == *final(r),
    {
        self.csv_format = csv_format;
        self
    }

    /// Checks the required fields in declared order and fails on the first
    /// one that is not set; otherwise the parameters that the builder holds.
    /// The builder is left as it was.
    pub fn build(&self) -> (r: Result<Common, CommonBuilderError>)
        ensures
            self.build_post(r),
    {
        let command = match &self.command {
            Some(c) => c.clone(),
            None => {
                proof { reveal_strlit("command"); }
                return Err(CommonBuilderError::UninitializedField("command"));
            },
        };
        let ephem_type = match self.ephem_type {
            Some(e) => e,
            None => return Err(CommonBuilderError::UninitializedField("ephem_type")),
        };
        let center = match &self.center {
            Some(c) => c.clone(),
            None => return Err(CommonBuilderError::UninitializedField("center")),
        };
        let time_spec = match &self.time_spec {
            Some(t) => t.clone(),
            None => return Err(CommonBuilderError::UninitializedField("time_spec")),
        };
        Ok(Common {
            command,
            ephem_type,
            center,
            ref_system: self.ref_system,
            format: self.format,
            obj_data: HzBool::from(self.obj_data),
            make_ephem: HzBool::from(self.make_ephem),
            csv_format: HzBool::from(self.csv_format),
            time_spec,
        })
    }
}

impl Default for CommonBuilder {
    fn default() -> (r: CommonBuilder)
        ensures
            r.is_fresh(),
            r.spec_ephem_type() is None,
    {
        CommonBuilder::new()
    }
}

/// Building twice from the same builder gives parameters that say the same
/// and are written identically on the wire, or fails twice on the same field.
pub proof fn lemma_build_repeatable(
    b: CommonBuilder,
    r1: Result<Common, CommonBuilderError>,
    r2: Result<Common, CommonBuilderError>,
)
    requires
        b.build_post(r1),
        b.build_post(r2),
    ensures
        r1 is Ok <==> r2 is Ok,
        r1 is Ok && r2 is Ok ==> r1.unwrap().equiv(r2.unwrap()) && r1.unwrap().spec_fields()
            == r2.unwrap().spec_fields(),
        r1 is Err && r2 is Err ==> r1->Err_0.spec_field() == r2->Err_0.spec_field(),
{
}

} // verus!
