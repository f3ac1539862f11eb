use spreadsheet::error::Error;
use spreadsheet::import::bea::bea::str_to_int;
use spreadsheet::import::{
    BeaColumns, BeaData, BeaDataRaw, BeaDatum, BeaDatumRaw, JcSurvey, JcSurveyItem, JcSurveyRaw,
    JcSurveyRawItem, Matched, Vote,
};

fn raw(code: &str, fips: i32, year: i32, value: &str) -> BeaDatumRaw {
    BeaDatumRaw {
        code: code.to_string(),
        geo_fips: fips,
        geo_name: format!("place {fips}"),
        time_period: year,
        description: format!("line {code} in {year}"),
        cl_unit: "dollars".to_string(),
        unit_mult: 3,
        data_value: value.to_string(),
    }
}

fn datum(code: &str, fips: i32, year: i32, value: i64) -> BeaDatum {
    BeaDatum {
        code: code.to_string(),
        geo_fips: fips,
        geo_name: format!("place {fips}"),
        time_period: year,
        description: format!("line {code} in {year}"),
        cl_unit: "dollars".to_string(),
        unit_mult: 3,
        data_value: value,
    }
}

fn table() -> BeaData {
    BeaData::from(vec![
        datum("C-20", 41033, 2020, 5),
        datum("C-10", 41000, 2021, 6),
        datum("C-20", 41000, 2020, 7),
        datum("C-10", 41033, 2020, 8),
        datum("C-30", 41033, 2021, 9),
    ])
}

#[test]
fn numbers_with_commas() {
    assert_eq!(str_to_int("123"), Ok(Some(123)));
    assert_eq!(str_to_int("1,234"), Ok(Some(1234)));
    assert_eq!(str_to_int("12,345,678"), Ok(Some(12345678)));
    assert_eq!(str_to_int("1,2,3"), Ok(Some(123)));
    assert_eq!(str_to_int("007"), Ok(Some(7)));
    assert_eq!(str_to_int("9,223,372,036,854,775,807"), Ok(Some(i64::MAX)));
    assert_eq!(str_to_int("9,223,372,036,854,775,808"), Err(Error::ParseError));
    assert_eq!(str_to_int(""), Ok(None));
    assert_eq!(str_to_int("(NA)"), Ok(None));
    assert_eq!(str_to_int("-5"), Ok(None));
    assert_eq!(str_to_int("1,234 E"), Ok(None));
    assert_eq!(str_to_int("1,"), Ok(None));
    assert_eq!(str_to_int("1,x"), Ok(None));
    assert_eq!(str_to_int("12x"), Err(Error::ParseError));
    assert_eq!(str_to_int("12 F"), Err(Error::ParseError));
    assert_eq!(str_to_int("1 E5"), Ok(Some(15)));
    assert_eq!(str_to_int("İ"), Err(Error::ParseError));
}

#[test]
fn table_from_texts() {
    let data = BeaData::try_from(&BeaDataRaw::new(vec![
        raw("C-10", 41033, 2020, "1,234"),
        raw("C-20", 41033, 2020, "(NA)"),
        raw("C-30", 41033, 2020, "5"),
    ]))
    .unwrap();
    assert_eq!(data.records_ref(), &vec![datum("C-10", 41033, 2020, 1234), datum("C-30", 41033, 2020, 5)]);
    let broken = BeaData::try_from(&BeaDataRaw::new(vec![
        raw("C-10", 41033, 2020, "1,234"),
        raw("C-20", 41033, 2020, "12x"),
        raw("C-30", 41033, 2020, "5"),
    ]));
    assert_eq!(broken, Err(Error::ParseError));
    assert_eq!(BeaData::try_from(&BeaDataRaw::new(vec![])).unwrap().len(), 0);
}

#[test]
fn columns_of_a_table() {
    let names = vec!["Code", "Fips", "Name", "Year", "Description", "Unit", "Value"];
    assert_eq!(BeaColumns::names(), names);
    assert_eq!(BeaDatum::names(), names);
    assert_eq!(BeaData::names(), names);
    assert_eq!(BeaColumns::iter().len(), 7);
    assert_eq!(BeaColumns::TimePeriod.to_string(), "Year");
    let value = datum("C-10", 41033, 2020, -1234);
    assert_eq!(
        value.columns(),
        vec!["C-10", "41033", "place 41033", "2020", "line C-10 in 2020", "dollars", "-1234"]
    );
    assert_eq!(value.code(), "C-10");
    assert_eq!(value.geo_fips(), 41033);
    assert_eq!(value.geo_name(), "place 41033");
    assert_eq!(value.geo_name_ref(), "place 41033");
    assert_eq!(value.time_period(), 2020);
    assert_eq!(value.description(), "line C-10 in 2020");
    assert_eq!(value.data_value(), -1234);
    assert_eq!(value.shown("year"), Some("2020".to_string()));
    assert_eq!(value.shown("fips"), Some("41033".to_string()));
    assert_eq!(value.shown("value"), None);
}

#[test]
fn keys_of_a_table() {
    let data = table();
    assert_eq!(data.linecode_keys(), vec!["C-10", "C-20", "C-30"]);
    assert_eq!(data.geofips_keys(), vec![41000, 41033]);
    assert_eq!(data.time_period_keys(), vec![2020, 2021]);
    let pairs = |v: &[(&str, &str)]| {
        v.iter().map(|p| (p.0.to_string(), p.1.to_string())).collect::<Vec<(String, String)>>()
    };
    let codes = pairs(&[
        ("C-10", "line C-10 in 2021"),
        ("C-20", "line C-20 in 2020"),
        ("C-30", "line C-30 in 2021"),
    ]);
    assert_eq!(data.linecode_btree(), codes);
    assert_eq!(data.linecode_hash(), codes);
    let places = vec![(41000, "place 41000".to_string()), (41033, "place 41033".to_string())];
    assert_eq!(data.geofips_btree(), places);
    assert_eq!(data.geofips_hash(), places);
    assert_eq!(BeaData::from(vec![]).linecode_btree(), vec![]);
}

#[test]
fn values_by_key() {
    let data = table();
    assert_eq!(data.filter("year", "2021").0, vec![datum("C-10", 41000, 2021, 6), datum("C-30", 41033, 2021, 9)]);
    assert_eq!(data.filter("code", "C-20").0, vec![datum("C-20", 41033, 2020, 5), datum("C-20", 41000, 2020, 7)]);
    assert_eq!(data.filter("fips", "41000").len(), 2);
    assert_eq!(data.filter("fips", "041000").len(), 0);
    assert_eq!(data.filter("location", "place 41033").len(), 3);
    assert_eq!(data.filter("description", "line C-30 in 2021").0, vec![datum("C-30", 41033, 2021, 9)]);
    assert_eq!(data.filter("value", "5").len(), 0);
    assert_eq!(data.filter("Year", "2021").len(), 0);
    let many = |v: &[&str]| v.iter().map(|s| s.to_string()).collect::<Vec<String>>();
    assert_eq!(data.filter_many("code", &many(&["C-30", "C-10"])).0, vec![
        datum("C-10", 41000, 2021, 6),
        datum("C-10", 41033, 2020, 8),
        datum("C-30", 41033, 2021, 9),
    ]);
    assert_eq!(data.filter_many("year", &many(&[])).len(), 0);
    assert_eq!(data.filter_many("year", &many(&["2020", "2021"])), data);
    assert_eq!(data.filter_many("nothing", &many(&["2020"])).len(), 0);
    assert_eq!(data.search("2020", "C-20", "41000").0, vec![datum("C-20", 41000, 2020, 7)]);
    assert_eq!(data.search("2021", "C-20", "41000").len(), 0);
}

fn answer(address: Option<&str>, option: Option<&str>) -> JcSurveyRawItem {
    JcSurveyRawItem {
        city: Some("Grants Pass".to_string()),
        address: address.map(|a| a.to_string()),
        option: option.map(|o| o.to_string()),
    }
}

#[test]
fn votes_by_name() {
    let vote = |text: &str| Vote::try_from(&text.to_string());
    assert_eq!(vote("Option 1: $27/$88 Public Safety Utility Fee only"), Ok(Vote::UtilityFee));
    assert_eq!(vote("Option 2: 7% Food & Beverage Tax only"), Ok(Vote::FoodBeverageTax));
    assert_eq!(vote("Option 3: 2% General Sales Tax only"), Ok(Vote::GeneralSalesTax));
    assert_eq!(vote("Option 4: Utility Fee/Sales Tax"), Ok(Vote::UtilityFeeSalesTax));
    assert_eq!(vote("Option 5: Utility Fee/Food & Beverage Tax"), Ok(Vote::UtilityFeeFoodBeverageTax));
    assert_eq!(vote("Option 6: Reduce Police/Fire Staffing"), Ok(Vote::ReduceService));
    assert_eq!(vote("Option 7"), Err(Error::ParseError));
    assert_eq!(vote(""), Err(Error::ParseError));
}

#[test]
fn answers_of_the_survey() {
    let option = "Option 4: Utility Fee/Sales Tax";
    let item = JcSurveyItem::try_from(&answer(Some("1 main st"), Some(option)), Some(17u8)).unwrap();
    assert_eq!(item.city, Some("Grants Pass".to_string()));
    assert_eq!(item.address, 17u8);
    assert_eq!(item.option, Vote::UtilityFeeSalesTax);
    assert_eq!(JcSurveyItem::try_from(&answer(None, Some(option)), Some(1u8)), Err(Error::UnknownError));
    assert_eq!(JcSurveyItem::<u8>::try_from(&answer(None, None), None), Err(Error::UnknownError));
    assert_eq!(JcSurveyItem::<u8>::try_from(&answer(Some("x"), Some(option)), None), Err(Error::ParseError));
    assert_eq!(JcSurveyItem::try_from(&answer(Some("x"), None), Some(1u8)), Err(Error::UnknownError));
    assert_eq!(JcSurveyItem::try_from(&answer(Some("x"), Some("?")), Some(1u8)), Err(Error::ParseError));
    let raw = JcSurveyRaw {
        records: vec![
            answer(Some("a"), Some(option)),
            answer(Some("b"), Some("Option 6: Reduce Police/Fire Staffing")),
            answer(Some("c"), Some(option)),
        ],
    };
    let survey = JcSurvey::try_from(&raw, vec![Some(1u8), Some(2u8), Some(3u8)]).unwrap();
    assert_eq!(survey.records.iter().map(|r| r.address).collect::<Vec<u8>>(), vec![1, 2, 3]);
    assert_eq!(survey.records[1].option, Vote::ReduceService);
    assert_eq!(survey.addresses(), vec![&1u8, &2u8, &3u8]);
    let mut bad = raw.clone();
    bad.records[1].option = None;
    bad.records[2].option = Some("?".to_string());
    assert_eq!(JcSurvey::try_from(&bad, vec![Some(1u8), Some(2u8), Some(3u8)]), Err(Error::UnknownError));
    assert_eq!(JcSurvey::try_from(&raw, vec![Some(1u8), Some(2u8), None]), Err(Error::ParseError));
    let found = |missing: bool, label: &str| Matched {
        missing,
        address_label: label.to_string(),
        longitude: (-123.5f64).to_bits(),
        latitude: 42.5f64.to_bits(),
    };
    let export = survey.validate(&vec![
        vec![found(false, "1 MAIN ST"), found(false, "2 MAIN ST")],
        vec![found(true, "nowhere"), found(false, "3 MAIN ST")],
        vec![],
    ]);
    assert_eq!(export.records.len(), 1);
    assert_eq!(export.records[0].address, "1 MAIN ST");
    assert_eq!(export.records[0].option, Vote::UtilityFeeSalesTax);
    assert_eq!(f64::from_bits(export.records[0].x_coordinate), -123.5);
    assert_eq!(f64::from_bits(export.records[0].y_coordinate), 42.5);
}
