use chrono::{TimeZone, Utc};
use horizons::request::bodies::{InvalidBodyCode, MajorBody};
use horizons::request::ephemeris::vectors::{TableFormat, VectorsBuilder};
use horizons::request::ephemeris::{
    EphemType, Format, OutUnits, RefPlane, RefSystem, StepSize, StepSizeUnit, TimeSpec, UtcTime,
    MAX_TIMESTAMP, MIN_TIMESTAMP,
};
use horizons::request::{Body, Center, Command, HzBool, Site};
use horizons::response::Vector3D;
use horizons::wire::{decimal_text, encode_query};

#[test]
fn every_code_decodes_to_its_body() {
    let mut found = 0;
    for code in 0..100_000i64 {
        if let Ok(b) = MajorBody::from_code(code) {
            assert_eq!(i64::from(b.code()), code);
            assert_eq!(MajorBody::try_from(b.code()), Ok(b));
            assert_eq!(MajorBody::try_from(u32::from(b) as u64), Ok(b));
            found += 1;
        }
    }
    assert_eq!(found, 239);
    assert_eq!(MajorBody::try_from(599u16 as i32), Ok(MajorBody::Jupiter));
    assert_eq!(MajorBody::Jupiter.name(), "Jupiter");
    assert_eq!(MajorBody::S2004S31.code(), 65067);
}

#[test]
fn absent_codes_are_errors_carrying_the_code() {
    for code in [598i64, -1, 11, 3013, 100_000, i64::MIN, i64::MAX] {
        assert_eq!(MajorBody::from_code(code), Err(InvalidBodyCode(code)));
    }
    assert_eq!(MajorBody::try_from(598u64), Err(InvalidBodyCode(598)));
    assert_eq!(MajorBody::try_from(598i128), Err(InvalidBodyCode(598)));
    assert_eq!(MajorBody::try_from(4_294_967_296u64), Err(InvalidBodyCode(4_294_967_296)));
    assert_eq!(MajorBody::try_from(-5isize), Err(InvalidBodyCode(-5)));
}

#[test]
fn flags_are_yes_and_no_under_any_keys() {
    let yes = HzBool::from(true);
    let no = HzBool::from(false);
    let pairs = vec![
        ("first flag".to_string(), yes.as_str().to_string()),
        ("x".to_string(), no.as_str().to_string()),
    ];
    assert_eq!(encode_query(&pairs), "first+flag=yes&x=no");
}

#[test]
fn wire_tokens_of_enumerations() {
    assert_eq!(EphemType::Observer.as_str(), "O");
    assert_eq!(EphemType::Elements.as_str(), "E");
    assert_eq!(EphemType::Vectors.as_str(), "V");
    assert_eq!(Format::Json.as_str(), "json");
    assert_eq!(RefPlane::Frame.as_str(), "F");
    assert_eq!(RefSystem::B1950.as_str(), "B1950");
    assert_eq!(OutUnits::KM_D.as_str(), "km-d");
    assert_eq!(OutUnits::default(), OutUnits::KM_S);
    assert_eq!(u8::from(TableFormat::Position_LT), 4);
    assert_eq!(TableFormat::default().to_text(), "3");
}

#[test]
fn step_sizes_in_every_unit() {
    let cases = [
        (StepSizeUnit::Unitless, "10"),
        (StepSizeUnit::Minutes, "10m"),
        (StepSizeUnit::Hours, "10h"),
        (StepSizeUnit::Days, "10d"),
        (StepSizeUnit::Months, "10mo"),
        (StepSizeUnit::Years, "10y"),
    ];
    for (unit, text) in cases {
        assert_eq!(StepSize::new(10, unit).to_text(), text);
    }
    assert_eq!(StepSize::new(u32::MAX, StepSizeUnit::Days).to_text(), "4294967295d");
}

#[test]
fn decimal_text_of_edges() {
    assert_eq!(decimal_text(0), "0");
    assert_eq!(decimal_text(10), "10");
    assert_eq!(decimal_text(u64::MAX), "18446744073709551615");
}

#[test]
fn centers_and_bodies() {
    assert_eq!(Center::from(MajorBody::Jupiter).to_text(), "500@599");
    assert_eq!(Center::from((Site::Custom(675), Body::from(MajorBody::Mars))).to_text(), "675@499");
    assert_eq!(Center::new(Site::default(), Body::Custom("c@1".to_string())).to_text(), "500@c@1");
    assert_eq!(Center::from((500u16, MajorBody::SolarSystemBary)).to_text(), "500@0");
    assert_eq!(Site::from(7).to_text(), "7");
    assert_eq!(Command::Custom("Ceres;".to_string()).to_text(), "Ceres;");
    assert_eq!(Command::from(MajorBody::SolarSystemBary).to_text(), "0");
}

#[test]
fn form_encoding_of_values() {
    let pairs = vec![
        ("k".to_string(), "a b+c@d:é".to_string()),
        ("-_.*".to_string(), "AZaz09".to_string()),
    ];
    assert_eq!(encode_query(&pairs), "k=a+b%2Bc%40d%3A%C3%A9&-_.*=AZaz09");
    assert_eq!(encode_query(&Vec::new()), "");
}

#[test]
fn time_lists_and_ranges() {
    let t1 = Utc.with_ymd_and_hms(2022, 8, 31, 0, 0, 0).unwrap();
    let t2 = Utc.timestamp_opt(1_661_904_000, 250_000_000).unwrap();
    let a = UtcTime::from_timestamp(t1.timestamp(), 0).unwrap();
    let b = UtcTime::from_timestamp(t2.timestamp(), 250_000_000).unwrap();
    assert_eq!(a.to_text(), "2022-08-31T00:00:00Z");
    assert_eq!(b.to_text(), "2022-08-31T00:00:00.250Z");

    let mut fields = Vec::new();
    TimeSpec::from_list(vec![a, b]).write_fields(&mut fields);
    assert_eq!(
        fields,
        vec![("tlist".to_string(), "2022-08-31T00:00:00Z,2022-08-31T00:00:00.250Z".to_string())]
    );

    let mut empty = Vec::new();
    TimeSpec::from_list(Vec::new()).write_fields(&mut empty);
    assert_eq!(empty, vec![("tlist".to_string(), String::new())]);

    assert!(UtcTime::from_timestamp(0, 1_000_000_000).is_none());
    assert!(UtcTime::from_timestamp(MAX_TIMESTAMP + 1, 0).is_none());
    assert!(UtcTime::from_timestamp(MIN_TIMESTAMP - 1, 0).is_none());
    assert_eq!(UtcTime::from_timestamp(MIN_TIMESTAMP, 0).unwrap().to_text(), "0000-01-01T00:00:00Z");
    assert_eq!(
        UtcTime::from_timestamp(MAX_TIMESTAMP, 999_999_999).unwrap().to_text(),
        "9999-12-31T23:59:59.999999999Z"
    );
    assert_eq!(a.timestamp(), 1_661_904_000);
    assert_eq!(b.subsec_nanos(), 250_000_000);
}

#[test]
fn vectors_builder_defaults_and_setters() {
    let mut b = VectorsBuilder::new();
    let mut fields = Vec::new();
    b.build().write_fields(&mut fields);
    assert_eq!(fields[0], ("vec_table".to_string(), "3".to_string()));
    b.vec_labels(false).vec_delta_t(true).out_units(OutUnits::AU_D).ref_plane(RefPlane::Frame);
    let mut changed = Vec::new();
    b.build().write_fields(&mut changed);
    let values: Vec<&str> = changed.iter().map(|(_, v)| v.as_str()).collect();
    assert_eq!(values, vec!["3", "no", "yes", "NONE", "au-d", "F"]);
}

#[test]
fn vector_coordinates_by_name() {
    let v = Vector3D::new([1.5f64, -2.0, 3.25]);
    let i = v.to_index();
    assert_eq!((i.x, i.y, i.z), (1.5, -2.0, 3.25));
}
