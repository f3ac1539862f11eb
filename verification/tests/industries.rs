use spreadsheet::data::{
    ActiveLicense, ActiveLicenses, Business, BusinessInfo, Businesses, BusinessesInfo, FlatList,
    IndustryCode, IndustryCodes, IndustryInfo, IndustryInfos, MailingList, MailingListExport,
    MailingListExportItem, MailingListItem,
};
use spreadsheet::import::{CityTaxlot, CityTaxlots, CountyTaxlot, CountyTaxlots};
use spreadsheet::order::{contains_text, sorted_numbers, sorted_texts};

fn code(code: i32) -> IndustryCode {
    IndustryCode::new(code, format!("industry {code}"), format!("all about {code}"))
}

fn business(license: &str, code: i32) -> Business {
    Business {
        company_name: "Acme".to_string(),
        contact_name: Some("Wile".to_string()),
        business_type: "retail".to_string(),
        dba: None,
        license: license.to_string(),
        code,
        notes: None,
        created_user: None,
        created_date: None,
        last_edited_user: None,
        last_edited_date: None,
        street_address_label: "1 Main St".to_string(),
        x_coordinate: 1.5f64.to_bits(),
        y_coordinate: 2.5f64.to_bits(),
    }
}

#[test]
fn sector_and_subsector_codes_are_the_leading_digits() {
    assert_eq!(code(812320).sector_code(), 81);
    assert_eq!(code(812320).subsector_code(), 8123);
    assert_eq!(code(44).sector_code(), 44);
    assert_eq!(code(4411).subsector_code(), 4411);
    assert_eq!(code(10).sector_code(), 10);
    assert_eq!(code(1000).subsector_code(), 1000);
    assert_eq!(code(i32::MAX).sector_code(), 21);
    assert_eq!(code(i32::MAX).subsector_code(), 2147);
    for value in [10, 99, 100, 4411, 72251, 812320, 999999, i32::MAX] {
        let text = value.to_string();
        assert_eq!(code(value).sector_code().to_string(), text[..2]);
        if value >= 1000 {
            assert_eq!(code(value).subsector_code().to_string(), text[..4]);
        }
    }
}

#[test]
fn names_of_sectors() {
    assert_eq!(code(111110).sector(), Some("Agriculture, Forestry, Fishing and Hunting".to_string()));
    assert_eq!(code(31).sector(), Some("Manufacturing".to_string()));
    assert_eq!(code(325000).sector(), Some("Manufacturing".to_string()));
    assert_eq!(code(339999).sector(), Some("Manufacturing".to_string()));
    assert_eq!(code(340000).sector(), None);
    assert_eq!(code(441110).sector(), Some("Retail Trade".to_string()));
    assert_eq!(code(459999).sector(), Some("Retail Trade".to_string()));
    assert_eq!(code(480000).sector(), Some("Transportation and Warehousing".to_string()));
    assert_eq!(code(812320).sector(), Some("Other Services (except Public Administration)".to_string()));
    assert_eq!(code(920000).sector(), Some("Public Administration".to_string()));
    assert_eq!(code(100000).sector(), None);
    assert_eq!(code(990000).sector(), None);
}

#[test]
fn names_of_subsectors_and_what_visitors_call_them() {
    assert_eq!(code(441110).subsector(), Some("Automobile Dealers".to_string()));
    assert_eq!(code(711410).subsector(), Some(
        "Agents and Managers for Artists, Athletes, Entertainers and Other Public Figures".to_string()
    ));
    assert_eq!(code(722511).subsector(), Some("Restaurants and Other Eating Places".to_string()));
    assert_eq!(code(812320).subsector(), None);
    assert_eq!(code(441110).tourism(), Some("Shopping".to_string()));
    assert_eq!(code(444110).tourism(), None);
    assert_eq!(code(444210).tourism(), Some("Shopping".to_string()));
    assert_eq!(code(711410).tourism(), None);
    assert_eq!(code(722410).tourism(), Some("Cocktails, Wine & Beer".to_string()));
    assert_eq!(code(722511).tourism(), Some("Food & Drink".to_string()));
    assert_eq!(code(722515).tourism(), Some("Coffee & Snacks".to_string()));
    assert_eq!(code(721191).tourism(), Some("Bed & Breakfast Inn".to_string()));
    assert_eq!(code(721110).tourism(), Some("Accommodation".to_string()));
    assert_eq!(code(312120).tourism(), Some("Cocktails, Wine & Beer".to_string()));
    assert_eq!(code(451110).tourism(), Some("Firearms".to_string()));
    assert_eq!(code(451120).tourism(), Some("Shopping".to_string()));
    assert_eq!(code(812112).tourism(), Some("Salon".to_string()));
    assert_eq!(code(812320).tourism(), None);
}

#[test]
fn industry_with_its_sector() {
    let info = IndustryInfo::from(&code(722515));
    assert_eq!(info.industry_code, 722515);
    assert_eq!(info.industry_name, "industry 722515");
    assert_eq!(info.industry_description, "all about 722515");
    assert_eq!(info.sector_code, 72);
    assert_eq!(info.sector_name, "Accommodation and Food Services");
    assert_eq!(info.subsector_code, 7225);
    assert_eq!(info.subsector_name, "Restaurants and Other Eating Places");
    assert_eq!(info.tourism, "Coffee & Snacks");
    let unknown = IndustryInfo::from(&code(990000));
    assert_eq!(unknown.sector_name, "Unknown");
    assert_eq!(unknown.subsector_name, "Unknown");
    assert_eq!(unknown.tourism, "Unknown");
    let mut all = IndustryInfos::from(&IndustryCodes::new(vec![code(722515), code(990000)]));
    assert_eq!(all.len(), 2);
    assert_eq!(all.0[1], unknown);
    all.records_mut().pop();
    assert_eq!(all.0, vec![info]);
}

#[test]
fn businesses_with_their_industries() {
    let codes = IndustryCodes::new(vec![code(111110), code(812320), code(722515), code(812320)]);
    assert_eq!(IndustryCode::from_code(812320, &codes), code(812320));
    assert_eq!(codes.records_ref().len(), 4);
    let licenses = ActiveLicenses::new(vec![
        ActiveLicense { industry_code: 722515, license: "L2".to_string() },
        ActiveLicense { industry_code: 812320, license: "L1".to_string() },
        ActiveLicense { industry_code: 111110, license: "L1".to_string() },
    ]);
    assert_eq!(licenses.code("L1"), 812320);
    assert_eq!(licenses.code("L2"), 722515);
    assert_eq!(licenses.0[0].license(), "L2");
    assert_eq!(licenses.0[0].license_ref(), "L2");
    assert_eq!(licenses.records_ref().len(), 3);
    let by_license = BusinessInfo::from_license(&business("L2", 111110), &licenses, &codes);
    assert_eq!(by_license.industry_code, 722515);
    assert_eq!(by_license.industry_name, "industry 722515");
    assert_eq!(by_license.sector_code, 72);
    assert_eq!(by_license.sector_name, Some("Accommodation and Food Services".to_string()));
    assert_eq!(by_license.subsector_code, 7225);
    assert_eq!(by_license.tourism, Some("Coffee & Snacks".to_string()));
    assert_eq!(by_license.company_name, "Acme");
    assert_eq!(by_license.contact_name, Some("Wile".to_string()));
    assert_eq!(by_license.x_coordinate, 1.5f64.to_bits());
    assert_eq!(by_license.y_coordinate, 2.5f64.to_bits());
    let by_code = BusinessInfo::from_codes(&business("L2", 111110), &codes);
    assert_eq!(by_code.industry_code, 111110);
    assert_eq!(by_code.sector_name, Some("Agriculture, Forestry, Fishing and Hunting".to_string()));
    assert_eq!(by_code.subsector_name, None);
    assert_eq!(business("L2", 111110).code(), 111110);
    let businesses = Businesses::new(vec![business("L1", 0), business("L2", 0)]);
    assert_eq!(businesses.records_ref().len(), 2);
    let mut all = BusinessesInfo::from_license(&businesses, &licenses, &codes);
    assert_eq!(all.records_ref().len(), 2);
    assert_eq!(all.0[0].industry_code, 812320);
    assert_eq!(all.0[1], by_license);
    all.records_mut().clear();
    assert_eq!(all.len(), 0);
}

#[test]
fn texts_and_numbers_in_order() {
    let texts = |v: &[&str]| v.iter().map(|s| s.to_string()).collect::<Vec<String>>();
    assert_eq!(sorted_texts(texts(&["b", "a", "c", "a", "B", "", "ab", "b"])), texts(&["", "B", "a", "ab", "b", "c"]));
    assert_eq!(sorted_texts(texts(&["é", "z", "e"])), texts(&["e", "z", "é"]));
    assert_eq!(sorted_texts(vec![]), Vec::<String>::new());
    assert_eq!(sorted_numbers(vec![3, -1, 3, 2, -1, i32::MIN]), vec![i32::MIN, -1, 2, 3]);
    assert!(contains_text(&texts(&["a", "b"]), &"b".to_string()));
    assert!(!contains_text(&texts(&["a", "b"]), &"c".to_string()));
}

#[test]
fn flat_lists_are_written_with_commas() {
    let list = |v: &[&str]| FlatList::new(v.iter().map(|s| s.to_string()).collect());
    assert_eq!(list(&[]).to_string(), "");
    assert_eq!(list(&["a"]).to_string(), "a");
    assert_eq!(list(&["a", "b", "c"]).to_string(), "a, b, c");
    assert_eq!(list(&["", ""]).to_string(), ", ");
    assert_eq!(list(&["a", "b"]).clone(), list(&["a", "b"]));
}

fn city(owner: &str, address: &str, csz: &str, situs: &str, map: &str) -> CityTaxlot {
    CityTaxlot::default()
        .with_owner_name(owner.to_string())
        .with_address(address.to_string())
        .with_csz(csz.to_string())
        .with_situs(situs.to_string())
        .with_map_number(map.to_string())
}

fn county(owner: &str, address: &str, csz: &str, situs: &str, map: &str) -> CountyTaxlot {
    CountyTaxlot::default()
        .with_owner_name(owner.to_string())
        .with_address(address.to_string())
        .with_csz(csz.to_string())
        .with_situs(situs.to_string())
        .with_map_number(map.to_string())
}

fn city_lots() -> CityTaxlots {
    CityTaxlots::new(vec![
        city("Smith", "PO Box 9", "Town OR 1", "3 Oak St", "M3"),
        city("Jones", "PO Box 9", "Town OR 1", "1 Elm St", "M1"),
        city("Smith", "1 Ash St", "City OR 2", "1 Ash St", "M4"),
        city("Smith", "PO Box 9", "Town OR 1", "2 Fir St", "M2"),
        city("Baker", "5 Yew St", "Dale OR 3", "5 Yew St", "M5"),
    ])
}

#[test]
fn tax_lots_know_their_owners_and_addresses() {
    let lots = city_lots();
    assert_eq!(lots.len(), 5);
    assert_eq!(lots.addresses(), vec!["PO Box 9", "PO Box 9", "1 Ash St", "PO Box 9", "5 Yew St"]);
    assert_eq!(lots.owner_names(), vec!["Smith", "Jones", "Smith", "Smith", "Baker"]);
    assert_eq!(lots.associated_addresses("Smith"), vec!["1 Ash St", "PO Box 9"]);
    assert_eq!(lots.associated_addresses("Jones"), vec!["PO Box 9"]);
    assert_eq!(lots.associated_addresses("Nobody"), Vec::<String>::new());
    assert_eq!(lots.associated_names("PO Box 9"), vec!["Jones", "Smith"]);
    assert_eq!(lots.associated_names("nowhere"), Vec::<String>::new());
    assert_eq!(lots.0[0].owner_name(), "Smith");
    assert_eq!(lots.0[0].acreage(), &None);
    assert_eq!(lots.0[0].clone().with_acreage(Some(1.5f64.to_bits())).acreage(), &Some(1.5f64.to_bits()));
    let lots = CountyTaxlots::new(vec![county("A", "x", "c", "s", "m"), county("B", "x", "c", "t", "n")]);
    assert_eq!(lots.associated_names("x"), vec!["A", "B"]);
    assert_eq!(lots.associated_addresses("B"), vec!["x"]);
    assert_eq!(lots.addresses(), vec!["x", "x"]);
    assert_eq!(lots.owner_names(), vec!["A", "B"]);
}

#[test]
fn entry_of_a_mailing_list() {
    let lots = city_lots();
    let mut done = vec!["Earlier".to_string()];
    let item = MailingListItem::from_city_parcels("Smith", &lots, &mut done).unwrap();
    assert_eq!(item.name, "Smith");
    assert_eq!(item.mailing_address.0, vec!["1 Ash St", "PO Box 9"]);
    assert_eq!(item.mailing_csz.0, vec!["City OR 2", "Town OR 1"]);
    assert_eq!(item.associated_names.0, Vec::<String>::new());
    assert_eq!(item.situs_addresses.0, vec!["1 Ash St"]);
    assert_eq!(item.properties, 1);
    assert_eq!(item.parcels.0, vec!["M4"]);
    assert_eq!(done, vec!["Earlier", "Smith"]);
    let item = MailingListItem::from_city_parcels("Jones", &lots, &mut done).unwrap();
    assert_eq!(item.mailing_address.0, vec!["PO Box 9"]);
    assert_eq!(item.associated_names.0, vec!["Smith"]);
    assert_eq!(item.situs_addresses.0, vec!["3 Oak St", "1 Elm St", "2 Fir St"]);
    assert_eq!(item.properties, 3);
    assert_eq!(item.parcels.0, vec!["M3", "M1", "M2"]);
    assert_eq!(done, vec!["Earlier", "Smith", "Jones"]);
    assert!(MailingListItem::from_city_parcels("Nobody", &lots, &mut done).is_err());
    assert_eq!(done, vec!["Earlier", "Smith", "Jones", "Nobody"]);
}

#[test]
fn mailing_list_of_all_owners() {
    let list = MailingList::try_from_city(&city_lots()).unwrap();
    let names: Vec<&str> = list.records_ref().iter().map(|r| r.name.as_str()).collect();
    assert_eq!(names, vec!["Baker", "Jones"]);
    assert_eq!(list.0[1].associated_names.0, vec!["Smith"]);
    let lots = CountyTaxlots::new(vec![county("B", "y", "c", "s", "m"), county("A", "x", "c", "t", "n")]);
    let list = MailingList::try_from_county(&lots).unwrap();
    assert_eq!(list.len(), 2);
    assert_eq!(list.0[0].name, "A");
    assert_eq!(list.0[0].parcels.0, vec!["n"]);
    let export = MailingListExport::from(&list);
    assert_eq!(export.records_ref().len(), 2);
    assert_eq!(export.records_ref()[1], MailingListExportItem {
        name: "B".to_string(),
        properties: 1,
        situs_addresses: "s".to_string(),
        mailing_address: "y".to_string(),
        mailing_csz: "c".to_string(),
        associated_names: "".to_string(),
        parcels: "m".to_string(),
    });
    let written = MailingListExportItem::from(&MailingList::try_from_city(&city_lots()).unwrap().0[1]);
    assert_eq!(written.situs_addresses, "3 Oak St, 1 Elm St, 2 Fir St");
    assert_eq!(written.properties, 3);
}

#[test]
fn mailing_list_in_order() {
    let entry = |name: &str, properties: usize| MailingListExportItem {
        name: name.to_string(),
        properties,
        situs_addresses: String::new(),
        mailing_address: String::new(),
        mailing_csz: String::new(),
        associated_names: String::new(),
        parcels: String::new(),
    };
    let mut list = MailingListExport::new(vec![entry("c", 2), entry("a", 3), entry("b", 2), entry("a", 1)]);
    list.sort_by_key("properties");
    assert_eq!(list.records_ref(), &vec![entry("a", 1), entry("c", 2), entry("b", 2), entry("a", 3)]);
    list.sort_by_key("name");
    assert_eq!(list.records_ref(), &vec![entry("a", 1), entry("a", 3), entry("b", 2), entry("c", 2)]);
    list.sort_by_key("nothing");
    assert_eq!(list.records_ref(), &vec![entry("a", 1), entry("a", 3), entry("b", 2), entry("c", 2)]);
    list.records_mut().truncate(1);
    assert_eq!(list.records_ref().len(), 1);
}
