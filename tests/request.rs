use chrono::{DateTime, Duration, TimeZone, Utc};
use horizons::request::bodies::{InvalidBodyCode, MajorBody};
use horizons::request::ephemeris::common::{CommonBuilder, CommonBuilderError};
use horizons::request::ephemeris::elements::TpType;
use horizons::request::ephemeris::vectors::Correction;
use horizons::request::ephemeris::{
    EphemType, Format, OutUnits, RefPlane, RefSystem, StepSize, StepSizeUnit, TimeSpec, UtcTime,
};
use horizons::request::presets::{
    light_time_vectors, position_vectors, state_vectors, velocity_vector,
};
use horizons::request::{Body, Center, Command, HzBool, Query, QueryBuilderError};
use horizons::wire::encode_query;

fn utc(t: DateTime<Utc>) -> UtcTime {
    UtcTime::from_timestamp(t.timestamp(), t.timestamp_subsec_nanos()).unwrap()
}

fn pairs(items: &[(&str, String)]) -> Vec<(String, String)> {
    items.iter().map(|(k, v)| (k.to_string(), v.clone())).collect()
}

#[test]
fn mod_test_step_size() {
    let step = StepSize::new(6, StepSizeUnit::Hours);
    assert_eq!("STEP_SIZE=6h", encode_query(&pairs(&[("STEP_SIZE", step.to_text())])));
    assert_eq!(
        "STEP_SIZE=6h",
        serde_urlencoded::to_string([("STEP_SIZE", step.to_text())]).unwrap()
    );
}

#[test]
fn test_step_size() {
    let step: StepSize = (6, StepSizeUnit::Hours).into();
    assert_eq!("STEP_SIZE=6h", encode_query(&pairs(&[("STEP_SIZE", step.to_text())])));
}

#[test]
fn test_common_builder() {
    let now = Utc::now();
    let later = now + Duration::days(2);

    let case = CommonBuilder::new()
        .command(MajorBody::Europa.into())
        .ephem_type(EphemType::Vectors)
        .center(MajorBody::Jupiter.into())
        .time_spec(TimeSpec::bounded((6, StepSizeUnit::Hours).into(), utc(now), utc(later)))
        .csv_format(true)
        .obj_data(false)
        .build()
        .unwrap();

    let mut fields = Vec::new();
    case.write_fields(&mut fields);
    let stamp = |t: DateTime<Utc>| t.to_rfc3339_opts(chrono::SecondsFormat::AutoSi, true);
    assert_eq!(
        fields,
        pairs(&[
            ("command", "502".to_string()),
            ("ephem_type", "V".to_string()),
            ("center", "500@599".to_string()),
            ("ref_system", "ICRF".to_string()),
            ("format", "text".to_string()),
            ("obj_data", "no".to_string()),
            ("make_ephem", "yes".to_string()),
            ("csv_format", "yes".to_string()),
            ("step_size", "6h".to_string()),
            ("start_time", stamp(now)),
            ("stop_time", stamp(later)),
        ])
    );
    println!("{}", encode_query(&fields));
}

#[test]
fn test_hz_bool() {
    let (yes, no): (HzBool, HzBool) = (true.into(), false.into());
    assert_eq!(
        "MAKE=yes&JSON=no",
        encode_query(&pairs(&[("MAKE", yes.as_str().to_string()), ("JSON", no.as_str().to_string())]))
    );
}

#[test]
fn test_major_body() {
    let jupiter = Body::from(MajorBody::Jupiter);
    assert_eq!("command=599", encode_query(&pairs(&[("command", jupiter.to_text())])));

    assert_eq!(Ok(MajorBody::JupiterBary), MajorBody::try_from(5));

    assert_eq!(Err(InvalidBodyCode(598)), MajorBody::try_from(598));
}

#[test]
fn test_query() {
    let mut builder = Query::vectors();
    let start = Utc.with_ymd_and_hms(2022, 8, 28, 0, 0, 0).unwrap();

    builder
        .common
        .command(MajorBody::Jupiter.into())
        .center(MajorBody::SolarSystemBary.into())
        .time_spec(TimeSpec::bounded(
            (6, StepSizeUnit::Hours).into(),
            utc(start),
            utc(start + Duration::days(2)),
        ))
        .obj_data(false)
        .csv_format(false);

    builder.specific.vec_corr(Correction::LT_S);

    let query = builder.build().unwrap();

    assert_eq!(
        "command=599&ephem_type=V&center=500%400&ref_system=ICRF&format=text\
        &obj_data=no&make_ephem=yes&csv_format=no&step_size=6h\
        &start_time=2022-08-28T00%3A00%3A00Z&stop_time=2022-08-30T00%3A00%3A00Z\
        &vec_table=3&vec_labels=yes&vec_delta_t=no&vec_corr=LT%2BS&out_units=km-s&ref_plane=E",
        query.to_query_string()
    );
}

#[test]
fn test_vectors() {
    type VectorFn = fn(Body, Center, TimeSpec) -> Query;

    let funcs: [(VectorFn, &str); 4] = [
        (
            state_vectors,
            "command=502&ephem_type=V&center=500%40599\
        &ref_system=ICRF&format=text&obj_data=yes&make_ephem=yes\
        &csv_format=no&tlist=2022-08-31T00%3A00%3A00Z&vec_table=2\
        &vec_labels=yes&vec_delta_t=no&vec_corr=NONE&out_units=km-s&ref_plane=E",
        ),
        (
            velocity_vector,
            "command=502&ephem_type=V&center=500%40599\
        &ref_system=ICRF&format=text&obj_data=yes&make_ephem=yes\
        &csv_format=no&tlist=2022-08-31T00%3A00%3A00Z&vec_table=5\
        &vec_labels=yes&vec_delta_t=no&vec_corr=NONE&out_units=km-s&ref_plane=E",
        ),
        (
            position_vectors,
            "command=502&ephem_type=V&center=500%40599\
        &ref_system=ICRF&format=text&obj_data=yes&make_ephem=yes\
        &csv_format=no&tlist=2022-08-31T00%3A00%3A00Z&vec_table=1\
        &vec_labels=yes&vec_delta_t=no&vec_corr=NONE&out_units=km-s&ref_plane=E",
        ),
        (
            light_time_vectors,
            "command=502&ephem_type=V&center=500%40599\
        &ref_system=ICRF&format=text&obj_data=yes&make_ephem=yes\
        &csv_format=no&tlist=2022-08-31T00%3A00%3A00Z&vec_table=6\
        &vec_labels=yes&vec_delta_t=no&vec_corr=NONE&out_units=km-s&ref_plane=E",
        ),
    ];

    let (target, center, time) = (
        MajorBody::Europa,
        MajorBody::Jupiter,
        TimeSpec::from_list(vec![utc(Utc.with_ymd_and_hms(2022, 8, 31, 0, 0, 0).unwrap())]),
    );

    for (func, expected) in funcs {
        let query = func(target.into(), center.into(), time.clone());

        assert_eq!(expected, query.to_query_string());
    }
}

#[test]
fn common_build_reports_first_missing_field() {
    let at = utc(Utc.with_ymd_and_hms(2022, 8, 28, 0, 0, 0).unwrap());
    let mut b = CommonBuilder::new();
    assert_eq!(b.build(), Err(CommonBuilderError::UninitializedField("command")));
    b.time_spec(TimeSpec::from_list(vec![at]));
    assert_eq!(b.build(), Err(CommonBuilderError::UninitializedField("command")));
    b.command(MajorBody::Moon.into());
    assert_eq!(b.build(), Err(CommonBuilderError::UninitializedField("ephem_type")));
    b.ephem_type(EphemType::Observer);
    assert_eq!(b.build(), Err(CommonBuilderError::UninitializedField("center")));
    b.center(MajorBody::Earth.into());
    assert!(b.build().is_ok());

    let mut c = CommonBuilder::new();
    c.command(MajorBody::Moon.into()).ephem_type(EphemType::Observer).center(MajorBody::Earth.into());
    assert_eq!(c.build(), Err(CommonBuilderError::UninitializedField("time_spec")));
}

#[test]
fn query_build_error_wraps_common_error() {
    let builder = Query::elements();
    assert_eq!(
        builder.build(),
        Err(QueryBuilderError::CommonBuilderError(CommonBuilderError::UninitializedField("command")))
    );
    let e: QueryBuilderError = CommonBuilderError::UninitializedField("center").into();
    assert_eq!(e, QueryBuilderError::CommonBuilderError(CommonBuilderError::UninitializedField("center")));
}

#[test]
fn build_twice_gives_equal_queries() {
    let mut builder = Query::vectors();
    let at = utc(Utc.with_ymd_and_hms(2022, 8, 31, 0, 0, 0).unwrap());
    builder
        .common
        .command(MajorBody::Io.into())
        .center(MajorBody::Jupiter.into())
        .time_spec(TimeSpec::from_list(vec![at, at]));
    let q1 = builder.build().unwrap();
    let q2 = builder.build().unwrap();
    assert_eq!(q1, q2);
    assert_eq!(q1.to_query_string(), q2.to_query_string());

    builder.common.format(Format::Json);
    let q3 = builder.build().unwrap();
    assert_ne!(q1, q3);
}

#[test]
fn elements_query_string() {
    let mut builder = Query::elements();
    let at = utc(Utc.with_ymd_and_hms(2022, 8, 31, 12, 30, 15).unwrap());
    builder
        .common
        .command(Command::Custom("DES=2000001;".to_string()))
        .center((42u16, MajorBody::Sun).into())
        .ref_system(RefSystem::B1950)
        .make_ephem(false)
        .time_spec(TimeSpec::from_list(vec![at]));
    builder
        .specific
        .tp_type(TpType::Relative)
        .out_units(OutUnits::AU_D)
        .ref_plane(RefPlane::BodyEquator)
        .elm_labels(false);
    let q = builder.build().unwrap();
    assert_eq!(
        "command=DES%3D2000001%3B&ephem_type=E&center=42%4010&ref_system=B1950&format=text\
        &obj_data=yes&make_ephem=no&csv_format=no&tlist=2022-08-31T12%3A30%3A15Z\
        &tp_type=Relative&out_units=au-d&ref_plane=B&elm_labels=no",
        q.to_query_string()
    );
}
