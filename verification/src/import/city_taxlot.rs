//! The tax lots of the county as the city keeps them.
use crate::order::{sorted_texts, texts, texts_ascend};
use crate::text::{clone_opt, opt_text};
use vstd::prelude::*;

verus! {

/// A tax lot as the city keeps it.
#[derive(Debug, PartialEq)]
pub struct CityTaxlot {
    /// The account.
    account: String,
    /// The bit pattern of the acreage.
    acreage: Option<u64>,
    /// The addr1.
    addr1: String,
    /// The addr2.
    addr2: Option<String>,
    /// The addr3.
    addr3: Option<String>,
    /// The address.
    address: String,
    /// The bit pattern of the appraised value.
    appraised_value: Option<u64>,
    /// The bit pattern of the assessed value.
    assessed_value: Option<u64>,
    /// The bit pattern of the bedrooms.
    bedrooms: Option<u64>,
    /// The building class.
    building_class: Option<String>,
    /// The block.
    block: Option<String>,
    /// The code.
    code: String,
    /// The comp mtl.
    comp_mtl: Option<String>,
    /// The csz.
    csz: String,
    /// The deed type.
    deed_type: String,
    /// The doc link.
    doc_link: String,
    /// The bit pattern of the gis acres.
    gis_acres: u64,
    /// The bit pattern of the imp value.
    imp_value: Option<u64>,
    /// The instrument number.
    instrument_number: Option<String>,
    /// The bit pattern of the land appraised.
    land_appraised: Option<u64>,
    /// The bit pattern of the land market.
    land_market: Option<u64>,
    /// The bit pattern of the latitude.
    latitude: u64,
    /// The bit pattern of the legal acre.
    legal_acre: Option<u64>,
    /// The bit pattern of the living area.
    living_area: Option<u64>,
    /// The location description.
    location_description: Option<String>,
    /// The bit pattern of the longitude.
    longitude: u64,
    /// The lot.
    lot: Option<String>,
    /// The lot 1.
    lot_1: Option<String>,
    /// The maint.
    maint: String,
    /// The map number.
    map_number: String,
    /// The mnx.
    mnx: String,
    /// The owner name.
    owner_name: String,
    /// The neighborhood.
    neighborhood: String,
    /// The property class.
    property_class: i32,
    /// The bit pattern of the retail market value.
    retail_market_value: Option<u64>,
    /// The sale date.
    sale_date: Option<String>,
    /// The bit pattern of the sale price.
    sale_price: Option<u64>,
    /// The sale type.
    sale_type: Option<String>,
    /// The school district.
    school_district: String,
    /// The situs.
    situs: String,
    /// The situs city.
    situs_city: String,
    /// The situs pref.
    situs_pref: Option<String>,
    /// The situs state.
    situs_state: String,
    /// The situs suf0.
    situs_suf0: Option<String>,
    /// The situs zip.
    situs_zip: i32,
    /// The sptb codes.
    sptb_codes: Option<String>,
    /// The bit pattern of the square feet.
    square_feet: Option<u64>,
    /// The bit pattern of the taxes.
    taxes: Option<u64>,
    /// The lot type.
    lot_type: String,
    /// The bit pattern of the year built.
    year_built: Option<u64>,
    /// The zone.
    zone: String,
}

/// What a tax lot of the city holds.
pub struct CityTaxlotView {
    pub account: Seq<char>,
    pub acreage: Option<u64>,
    pub addr1: Seq<char>,
    pub addr2: Option<Seq<char>>,
    pub addr3: Option<Seq<char>>,
    pub address: Seq<char>,
    pub appraised_value: Option<u64>,
    pub assessed_value: Option<u64>,
    pub bedrooms: Option<u64>,
    pub building_class: Option<Seq<char>>,
    pub block: Option<Seq<char>>,
    pub code: Seq<char>,
    pub comp_mtl: Option<Seq<char>>,
    pub csz: Seq<char>,
    pub deed_type: Seq<char>,
    pub doc_link: Seq<char>,
    pub gis_acres: u64,
    pub imp_value: Option<u64>,
    pub instrument_number: Option<Seq<char>>,
    pub land_appraised: Option<u64>,
    pub land_market: Option<u64>,
    pub latitude: u64,
    pub legal_acre: Option<u64>,
    pub living_area: Option<u64>,
    pub location_description: Option<Seq<char>>,
    pub longitude: u64,
    pub lot: Option<Seq<char>>,
    pub lot_1: Option<Seq<char>>,
    pub maint: Seq<char>,
    pub map_number: Seq<char>,
    pub mnx: Seq<char>,
    pub owner_name: Seq<char>,
    pub neighborhood: Seq<char>,
    pub property_class: i32,
    pub retail_market_value: Option<u64>,
    pub sale_date: Option<Seq<char>>,
    pub sale_price: Option<u64>,
    pub sale_type: Option<Seq<char>>,
    pub school_district: Seq<char>,
    pub situs: Seq<char>,
    pub situs_city: Seq<char>,
    pub situs_pref: Option<Seq<char>>,
    pub situs_state: Seq<char>,
    pub situs_suf0: Option<Seq<char>>,
    pub situs_zip: i32,
    pub sptb_codes: Option<Seq<char>>,
    pub square_feet: Option<u64>,
    pub taxes: Option<u64>,
    pub lot_type: Seq<char>,
    pub year_built: Option<u64>,
    pub zone: Seq<char>,
}

impl View for CityTaxlot {
    type V = CityTaxlotView;

    closed spec fn view(&self) -> CityTaxlotView {
        CityTaxlotView {
            account: self.account@,
            acreage: self.acreage,
            addr1: self.addr1@,
            addr2: opt_text(self.addr2),
            addr3: opt_text(self.addr3),
            address: self.address@,
            appraised_value: self.appraised_value,
            assessed_value: self.assessed_value,
            bedrooms: self.bedrooms,
            building_class: opt_text(self.building_class),
            block: opt_text(self.block),
            code: self.code@,
            comp_mtl: opt_text(self.comp_mtl),
            csz: self.csz@,
            deed_type: self.deed_type@,
            doc_link: self.doc_link@,
            gis_acres: self.gis_acres,
            imp_value: self.imp_value,
            instrument_number: opt_text(self.instrument_number),
            land_appraised: self.land_appraised,
            land_market: self.land_market,
            latitude: self.latitude,
            legal_acre: self.legal_acre,
            living_area: self.living_area,
            location_description: opt_text(self.location_description),
            longitude: self.longitude,
            lot: opt_text(self.lot),
            lot_1: opt_text(self.lot_1),
            maint: self.maint@,
            map_number: self.map_number@,
            mnx: self.mnx@,
            owner_name: self.owner_name@,
            neighborhood: self.neighborhood@,
            property_class: self.property_class,
            retail_market_value: self.retail_market_value,
            sale_date: opt_text(self.sale_date),
            sale_price: self.sale_price,
            sale_type: opt_text(self.sale_type),
            school_district: self.school_district@,
            situs: self.situs@,
            situs_city: self.situs_city@,
            situs_pref: opt_text(self.situs_pref),
            situs_state: self.situs_state@,
            situs_suf0: opt_text(self.situs_suf0),
            situs_zip: self.situs_zip,
            sptb_codes: opt_text(self.sptb_codes),
            square_feet: self.square_feet,
            taxes: self.taxes,
            lot_type: self.lot_type@,
            year_built: self.year_built,
            zone: self.zone@,
        }
    }
}

impl Clone for CityTaxlot {
    fn clone(&self) -> (r: Self)
        ensures
            r@ == self@,
    {
        CityTaxlot {
            account: self.account.clone(),
            acreage: self.acreage,
            addr1: self.addr1.clone(),
            addr2: clone_opt(&self.addr2),
            addr3: clone_opt(&self.addr3),
            address: self.address.clone(),
            appraised_value: self.appraised_value,
            assessed_value: self.assessed_value,
            bedrooms: self.bedrooms,
            building_class: clone_opt(&self.building_class),
            block: clone_opt(&self.block),
            code: self.code.clone(),
            comp_mtl: clone_opt(&self.comp_mtl),
            csz: self.csz.clone(),
            deed_type: self.deed_type.clone(),
            doc_link: self.doc_link.clone(),
            gis_acres: self.gis_acres,
            imp_value: self.imp_value,
            instrument_number: clone_opt(&self.instrument_number),
            land_appraised: self.land_appraised,
            land_market: self.land_market,
            latitude: self.latitude,
            legal_acre: self.legal_acre,
            living_area: self.living_area,
            location_description: clone_opt(&self.location_description),
            longitude: self.longitude,
            lot: clone_opt(&self.lot),
            lot_1: clone_opt(&self.lot_1),
            maint: self.maint.clone(),
            map_number: self.map_number.clone(),
            mnx: self.mnx.clone(),
            owner_name: self.owner_name.clone(),
            neighborhood: self.neighborhood.clone(),
            property_class: self.property_class,
            retail_market_value: self.retail_market_value,
            sale_date: clone_opt(&self.sale_date),
            sale_price: self.sale_price,
            sale_type: clone_opt(&self.sale_type),
            school_district: self.school_district.clone(),
            situs: self.situs.clone(),
            situs_city: self.situs_city.clone(),
            situs_pref: clone_opt(&self.situs_pref),
            situs_state: self.situs_state.clone(),
            situs_suf0: clone_opt(&self.situs_suf0),
            situs_zip: self.situs_zip,
            sptb_codes: clone_opt(&self.sptb_codes),
            square_feet: self.square_feet,
            taxes: self.taxes,
            lot_type: self.lot_type.clone(),
            year_built: self.year_built,
            zone: self.zone.clone(),
        }
    }
}

impl CityTaxlot {
    /// The account.
    pub fn account(&self) -> (r: &String)
        ensures
            (*r)@ == self@.account,
    {
        &self.account
    }

    /// The bit pattern of the acreage.
    pub fn acreage(&self) -> (r: &Option<u64>)
        ensures
            *r == self@.acreage,
    {
        &self.acreage
    }

    /// The addr1.
    pub fn addr1(&self) -> (r: &String)
        ensures
            (*r)@ == self@.addr1,
    {
        &self.addr1
    }

    /// The addr2.
    pub fn addr2(&self) -> (r: &Option<String>)
        ensures
            opt_text((*r)) == self@.addr2,
    {
        &self.addr2
    }

    /// The addr3.
    pub fn addr3(&self) -> (r: &Option<String>)
        ensures
            opt_text((*r)) == self@.addr3,
    {
        &self.addr3
    }

    /// The address.
    pub fn address(&self) -> (r: &String)
        ensures
            (*r)@ == self@.address,
    {
        &self.address
    }

    /// The bit pattern of the appraised value.
    pub fn appraised_value(&self) -> (r: &Option<u64>)
        ensures
            *r == self@.appraised_value,
    {
        &self.appraised_value
    }

    /// The bit pattern of the assessed value.
    pub fn assessed_value(&self) -> (r: &Option<u64>)
        ensures
            *r == self@.assessed_value,
    {
        &self.assessed_value
    }

    /// The bit pattern of the bedrooms.
    pub fn bedrooms(&self) -> (r: &Option<u64>)
        ensures
            *r == self@.bedrooms,
    {
        &self.bedrooms
    }

    /// The building class.
    pub fn building_class(&self) -> (r: &Option<String>)
        ensures
            opt_text((*r)) == self@.building_class,
    {
        &self.building_class
    }

    /// The block.
    pub fn block(&self) -> (r: &Option<String>)
        ensures
            opt_text((*r)) == self@.block,
    {
        &self.block
    }

    /// The code.
    pub fn code(&self) -> (r: &String)
        ensures
            (*r)@ == self@.code,
    {
        &self.code
    }

    /// The comp mtl.
    pub fn comp_mtl(&self) -> (r: &Option<String>)
        ensures
            opt_text((*r)) == self@.comp_mtl,
    {
        &self.comp_mtl
    }

    /// The csz.
    pub fn csz(&self) -> (r: &String)
        ensures
            (*r)@ == self@.csz,
    {
        &self.csz
    }

    /// The deed type.
    pub fn deed_type(&self) -> (r: &String)
        ensures
            (*r)@ == self@.deed_type,
    {
        &self.deed_type
    }

    /// The doc link.
    pub fn doc_link(&self) -> (r: &String)
        ensures
            (*r)@ == self@.doc_link,
    {
        &self.doc_link
    }

    /// The bit pattern of the gis acres.
    pub fn gis_acres(&self) -> (r: &u64)
        ensures
            *r == self@.gis_acres,
    {
        &self.gis_acres
    }

    /// The bit pattern of the imp value.
    pub fn imp_value(&self) -> (r: &Option<u64>)
        ensures
            *r == self@.imp_value,
    {
        &self.imp_value
    }

    /// The instrument number.
    pub fn instrument_number(&self) -> (r: &Option<String>)
        ensures
            opt_text((*r)) == self@.instrument_number,
    {
        &self.instrument_number
    }

    /// The bit pattern of the land appraised.
    pub fn land_appraised(&self) -> (r: &Option<u64>)
        ensures
            *r == self@.land_appraised,
    {
        &self.land_appraised
    }

    /// The bit pattern of the land market.
    pub fn land_market(&self) -> (r: &Option<u64>)
        ensures
            *r == self@.land_market,
    {
        &self.land_market
    }

    /// The bit pattern of the latitude.
    pub fn latitude(&self) -> (r: &u64)
        ensures
            *r == self@.latitude,
    {
        &self.latitude
    }

    /// The bit pattern of the legal acre.
    pub fn legal_acre(&self) -> (r: &Option<u64>)
        ensures
            *r == self@.legal_acre,
    {
        &self.legal_acre
    }

    /// The bit pattern of the living area.
    pub fn living_area(&self) -> (r: &Option<u64>)
        ensures
            *r == self@.living_area,
    {
        &self.living_area
    }

    /// The location description.
    pub fn location_description(&self) -> (r: &Option<String>)
        ensures
            opt_text((*r)) == self@.location_description,
    {
        &self.location_description
    }

    /// The bit pattern of the longitude.
    pub fn longitude(&self) -> (r: &u64)
        ensures
            *r == self@.longitude,
    {
        &self.longitude
    }

    /// The lot.
    pub fn lot(&self) -> (r: &Option<String>)
        ensures
            opt_text((*r)) == self@.lot,
    {
        &self.lot
    }

    /// The lot 1.
    pub fn lot_1(&self) -> (r: &Option<String>)
        ensures
            opt_text((*r)) == self@.lot_1,
    {
        &self.lot_1
    }

    /// The maint.
    pub fn maint(&self) -> (r: &String)
        ensures
            (*r)@ == self@.maint,
    {
        &self.maint
    }

    /// The map number.
    pub fn map_number(&self) -> (r: &String)
        ensures
            (*r)@ == self@.map_number,
    {
        &self.map_number
    }

    /// The mnx.
    pub fn mnx(&self) -> (r: &String)
        ensures
            (*r)@ == self@.mnx,
    {
        &self.mnx
    }

    /// The owner name.
    pub fn owner_name(&self) -> (r: &String)
        ensures
            (*r)@ == self@.owner_name,
    {
        &self.owner_name
    }

    /// The neighborhood.
    pub fn neighborhood(&self) -> (r: &String)
        ensures
            (*r)@ == self@.neighborhood,
    {
        &self.neighborhood
    }

    /// The property class.
    pub fn property_class(&self) -> (r: &i32)
        ensures
            *r == self@.property_class,
    {
        &self.property_class
    }

    /// The bit pattern of the retail market value.
    pub fn retail_market_value(&self) -> (r: &Option<u64>)
        ensures
            *r == self@.retail_market_value,
    {
        &self.retail_market_value
    }

    /// The sale date.
    pub fn sale_date(&self) -> (r: &Option<String>)
        ensures
            opt_text((*r)) == self@.sale_date,
    {
        &self.sale_date
    }

    /// The bit pattern of the sale price.
    pub fn sale_price(&self) -> (r: &Option<u64>)
        ensures
            *r == self@.sale_price,
    {
        &self.sale_price
    }

    /// The sale type.
    pub fn sale_type(&self) -> (r: &Option<String>)
        ensures
            opt_text((*r)) == self@.sale_type,
    {
        &self.sale_type
    }

    /// The school district.
    pub fn school_district(&self) -> (r: &String)
        ensures
            (*r)@ == self@.school_district,
    {
        &self.school_district
    }

    /// The situs.
    pub fn situs(&self) -> (r: &String)
        ensures
            (*r)@ == self@.situs,
    {
        &self.situs
    }

    /// The situs city.
    pub fn situs_city(&self) -> (r: &String)
        ensures
            (*r)@ == self@.situs_city,
    {
        &self.situs_city
    }

    /// The situs pref.
    pub fn situs_pref(&self) -> (r: &Option<String>)
        ensures
            opt_text((*r)) == self@.situs_pref,
    {
        &self.situs_pref
    }

    /// The situs state.
    pub fn situs_state(&self) -> (r: &String)
        ensures
            (*r)@ == self@.situs_state,
    {
        &self.situs_state
    }

    /// The situs suf0.
    pub fn situs_suf0(&self) -> (r: &Option<String>)
        ensures
            opt_text((*r)) == self@.situs_suf0,
    {
        &self.situs_suf0
    }

    /// The situs zip.
    pub fn situs_zip(&self) -> (r: &i32)
        ensures
            *r == self@.situs_zip,
    {
        &self.situs_zip
    }

    /// The sptb codes.
    pub fn sptb_codes(&self) -> (r: &Option<String>)
        ensures
            opt_text((*r)) == self@.sptb_codes,
    {
        &self.sptb_codes
    }

    /// The bit pattern of the square feet.
    pub fn square_feet(&self) -> (r: &Option<u64>)
        ensures
            *r == self@.square_feet,
    {
        &self.square_feet
    }

    /// The bit pattern of the taxes.
    pub fn taxes(&self) -> (r: &Option<u64>)
        ensures
            *r == self@.taxes,
    {
        &self.taxes
    }

    /// The lot type.
    pub fn lot_type(&self) -> (r: &String)
        ensures
            (*r)@ == self@.lot_type,
    {
        &self.lot_type
    }

    /// The bit pattern of the year built.
    pub fn year_built(&self) -> (r: &Option<u64>)
        ensures
            *r == self@.year_built,
    {
        &self.year_built
    }

    /// The zone.
    pub fn zone(&self) -> (r: &String)
        ensures
            (*r)@ == self@.zone,
    {
        &self.zone
    }

    /// The same, but with another value for: the account.
    pub fn with_account(self, value: String) -> (r: Self)
        ensures
            r@ == (CityTaxlotView { account: value@, ..self@ }),
    {
        let mut r = self;
        r.account = value;
        r
    }

    /// The same, but with another value for: the bit pattern of the acreage.
    pub fn with_acreage(self, value: Option<u64>) -> (r: Self)
        ensures
            r@ == (CityTaxlotView { acreage: value, ..self@ }),
    {
        let mut r = self;
        r.acreage = value;
        r
    }

    /// The same, but with another value for: the addr1.
    pub fn with_addr1(self, value: String) -> (r: Self)
        ensures
            r@ == (CityTaxlotView { addr1: value@, ..self@ }),
    {
        let mut r = self;
        r.addr1 = value;
        r
    }

    /// The same, but with another value for: the addr2.
    pub fn with_addr2(self, value: Option<String>) -> (r: Self)
        ensures
            r@ == (CityTaxlotView { addr2: opt_text(value), ..self@ }),
    {
        let mut r = self;
        r.addr2 = value;
        r
    }

    /// The same, but with another value for: the addr3.
    pub fn with_addr3(self, value: Option<String>) -> (r: Self)
        ensures
            r@ == (CityTaxlotView { addr3: opt_text(value), ..self@ }),
    {
        let mut r = self;
        r.addr3 = value;
        r
    }

    /// The same, but with another value for: the address.
    pub fn with_address(self, value: String) -> (r: Self)
        ensures
            r@ == (CityTaxlotView { address: value@, ..self@ }),
    {
        let mut r = self;
        r.address = value;
        r
    }

    /// The same, but with another value for: the bit pattern of the appraised value.
    pub fn with_appraised_value(self, value: Option<u64>) -> (r: Self)
        ensures
            r@ == (CityTaxlotView { appraised_value: value, ..self@ }),
    {
        let mut r = self;
        r.appraised_value = value;
        r
    }

    /// The same, but with another value for: the bit pattern of the assessed value.
    pub fn with_assessed_value(self, value: Option<u64>) -> (r: Self)
        ensures
            r@ == (CityTaxlotView { assessed_value: value, ..self@ }),
    {
        let mut r = self;
        r.assessed_value = value;
        r
    }

    /// The same, but with another value for: the bit pattern of the bedrooms.
    pub fn with_bedrooms(self, value: Option<u64>) -> (r: Self)
        ensures
            r@ == (CityTaxlotView { bedrooms: value, ..self@ }),
    {
        let mut r = self;
        r.bedrooms = value;
        r
    }

    /// The same, but with another value for: the building class.
    pub fn with_building_class(self, value: Option<String>) -> (r: Self)
        ensures
            r@ == (CityTaxlotView { building_class: opt_text(value), ..self@ }),
    {
        let mut r = self;
        r.building_class = value;
        r
    }

    /// The same, but with another value for: the block.
    pub fn with_block(self, value: Option<String>) -> (r: Self)
        ensures
            r@ == (CityTaxlotView { block: opt_text(value), ..self@ }),
    {
        let mut r = self;
        r.block = value;
        r
    }

    /// The same, but with another value for: the code.
    pub fn with_code(self, value: String) -> (r: Self)
        ensures
            r@ == (CityTaxlotView { code: value@, ..self@ }),
    {
        let mut r = self;
        r.code = value;
        r
    }

    /// The same, but with another value for: the comp mtl.
    pub fn with_comp_mtl(self, value: Option<String>) -> (r: Self)
        ensures
            r@ == (CityTaxlotView { comp_mtl: opt_text(value), ..self@ }),
    {
        let mut r = self;
        r.comp_mtl = value;
        r
    }

    /// The same, but with another value for: the csz.
    pub fn with_csz(self, value: String) -> (r: Self)
        ensures
            r@ == (CityTaxlotView { csz: value@, ..self@ }),
    {
        let mut r = self;
        r.csz = value;
        r
    }

    /// The same, but with another value for: the deed type.
    pub fn with_deed_type(self, value: String) -> (r: Self)
        ensures
            r@ == (CityTaxlotView { deed_type: value@, ..self@ }),
    {
        let mut r = self;
        r.deed_type = value;
        r
    }

    /// The same, but with another value for: the doc link.
    pub fn with_doc_link(self, value: String) -> (r: Self)
        ensures
            r@ == (CityTaxlotView { doc_link: value@, ..self@ }),
    {
        let mut r = self;
        r.doc_link = value;
        r
    }

    /// The same, but with another value for: the bit pattern of the gis acres.
    pub fn with_gis_acres(self, value: u64) -> (r: Self)
        ensures
            r@ == (CityTaxlotView { gis_acres: value, ..self@ }),
    {
        let mut r = self;
        r.gis_acres = value;
        r
    }

    /// The same, but with another value for: the bit pattern of the imp value.
    pub fn with_imp_value(self, value: Option<u64>) -> (r: Self)
        ensures
            r@ == (CityTaxlotView { imp_value: value, ..self@ }),
    {
        let mut r = self;
        r.imp_value = value;
        r
    }

    /// The same, but with another value for: the instrument number.
    pub fn with_instrument_number(self, value: Option<String>) -> (r: Self)
        ensures
            r@ == (CityTaxlotView { instrument_number: opt_text(value), ..self@ }),
    {
        let mut r = self;
        r.instrument_number = value;
        r
    }

    /// The same, but with another value for: the bit pattern of the land appraised.
    pub fn with_land_appraised(self, value: Option<u64>) -> (r: Self)
        ensures
            r@ == (CityTaxlotView { land_appraised: value, ..self@ }),
    {
        let mut r = self;
        r.land_appraised = value;
        r
    }

    /// The same, but with another value for: the bit pattern of the land market.
    pub fn with_land_market(self, value: Option<u64>) -> (r: Self)
        ensures
            r@ == (CityTaxlotView { land_market: value, ..self@ }),
    {
        let mut r = self;
        r.land_market = value;
        r
    }

    /// The same, but with another value for: the bit pattern of the latitude.
    pub fn with_latitude(self, value: u64) -> (r: Self)
        ensures
            r@ == (CityTaxlotView { latitude: value, ..self@ }),
    {
        let mut r = self;
        r.latitude = value;
        r
    }

    /// The same, but with another value for: the bit pattern of the legal acre.
    pub fn with_legal_acre(self, value: Option<u64>) -> (r: Self)
        ensures
            r@ == (CityTaxlotView { legal_acre: value, ..self@ }),
    {
        let mut r = self;
        r.legal_acre = value;
        r
    }

    /// The same, but with another value for: the bit pattern of the living area.
    pub fn with_living_area(self, value: Option<u64>) -> (r: Self)
        ensures
            r@ == (CityTaxlotView { living_area: value, ..self@ }),
    {
        let mut r = self;
        r.living_area = value;
        r
    }

    /// The same, but with another value for: the location description.
    pub fn with_location_description(self, value: Option<String>) -> (r: Self)
        ensures
            r@ == (CityTaxlotView { location_description: opt_text(value), ..self@ }),
    {
        let mut r = self;
        r.location_description = value;
        r
    }

    /// The same, but with another value for: the bit pattern of the longitude.
    pub fn with_longitude(self, value: u64) -> (r: Self)
        ensures
            r@ == (CityTaxlotView { longitude: value, ..self@ }),
    {
        let mut r = self;
        r.longitude = value;
        r
    }

    /// The same, but with another value for: the lot.
    pub fn with_lot(self, value: Option<String>) -> (r: Self)
        ensures
            r@ == (CityTaxlotView { lot: opt_text(value), ..self@ }),
    {
        let mut r = self;
        r.lot = value;
        r
    }

    /// The same, but with another value for: the lot 1.
    pub fn with_lot_1(self, value: Option<String>) -> (r: Self)
        ensures
            r@ == (CityTaxlotView { lot_1: opt_text(value), ..self@ }),
    {
        let mut r = self;
        r.lot_1 = value;
        r
    }

    /// The same, but with another value for: the maint.
    pub fn with_maint(self, value: String) -> (r: Self)
        ensures
            r@ == (CityTaxlotView { maint: value@, ..self@ }),
    {
        let mut r = self;
        r.maint = value;
        r
    }

    /// The same, but with another value for: the map number.
    pub fn with_map_number(self, value: String) -> (r: Self)
        ensures
            r@ == (CityTaxlotView { map_number: value@, ..self@ }),
    {
        let mut r = self;
        r.map_number = value;
        r
    }

    /// The same, but with another value for: the mnx.
    pub fn with_mnx(self, value: String) -> (r: Self)
        ensures
            r@ == (CityTaxlotView { mnx: value@, ..self@ }),
    {
        let mut r = self;
        r.mnx = value;
        r
    }

    /// The same, but with another value for: the owner name.
    pub fn with_owner_name(self, value: String) -> (r: Self)
        ensures
            r@ == (CityTaxlotView { owner_name: value@, ..self@ }),
    {
        let mut r = self;
        r.owner_name = value;
        r
    }

    /// The same, but with another value for: the neighborhood.
    pub fn with_neighborhood(self, value: String) -> (r: Self)
        ensures
            r@ == (CityTaxlotView { neighborhood: value@, ..self@ }),
    {
        let mut r = self;
        r.neighborhood = value;
        r
    }

    /// The same, but with another value for: the property class.
    pub fn with_property_class(self, value: i32) -> (r: Self)
        ensures
            r@ == (CityTaxlotView { property_class: value, ..self@ }),
    {
        let mut r = self;
        r.property_class = value;
        r
    }

    /// The same, but with another value for: the bit pattern of the retail market value.
    pub fn with_retail_market_value(self, value: Option<u64>) -> (r: Self)
        ensures
            r@ == (CityTaxlotView { retail_market_value: value, ..self@ }),
    {
        let mut r = self;
        r.retail_market_value = value;
        r
    }

    /// The same, but with another value for: the sale date.
    pub fn with_sale_date(self, value: Option<String>) -> (r: Self)
        ensures
            r@ == (CityTaxlotView { sale_date: opt_text(value), ..self@ }),
    {
        let mut r = self;
        r.sale_date = value;
        r
    }

    /// The same, but with another value for: the bit pattern of the sale price.
    pub fn with_sale_price(self, value: Option<u64>) -> (r: Self)
        ensures
            r@ == (CityTaxlotView { sale_price: value, ..self@ }),
    {
        let mut r = self;
        r.sale_price = value;
        r
    }

    /// The same, but with another value for: the sale type.
    pub fn with_sale_type(self, value: Option<String>) -> (r: Self)
        ensures
            r@ == (CityTaxlotView { sale_type: opt_text(value), ..self@ }),
    {
        let mut r = self;
        r.sale_type = value;
        r
    }

    /// The same, but with another value for: the school district.
    pub fn with_school_district(self, value: String) -> (r: Self)
        ensures
            r@ == (CityTaxlotView { school_district: value@, ..self@ }),
    {
        let mut r = self;
        r.school_district = value;
        r
    }

    /// The same, but with another value for: the situs.
    pub fn with_situs(self, value: String) -> (r: Self)
        ensures
            r@ == (CityTaxlotView { situs: value@, ..self@ }),
    {
        let mut r = self;
        r.situs = value;
        r
    }

    /// The same, but with another value for: the situs city.
    pub fn with_situs_city(self, value: String) -> (r: Self)
        ensures
            r@ == (CityTaxlotView { situs_city: value@, ..self@ }),
    {
        let mut r = self;
        r.situs_city = value;
        r
    }

    /// The same, but with another value for: the situs pref.
    pub fn with_situs_pref(self, value: Option<String>) -> (r: Self)
        ensures
            r@ == (CityTaxlotView { situs_pref: opt_text(value), ..self@ }),
    {
        let mut r = self;
        r.situs_pref = value;
        r
    }

    /// The same, but with another value for: the situs state.
    pub fn with_situs_state(self, value: String) -> (r: Self)
        ensures
            r@ == (CityTaxlotView { situs_state: value@, ..self@ }),
    {
        let mut r = self;
        r.situs_state = value;
        r
    }

    /// The same, but with another value for: the situs suf0.
    pub fn with_situs_suf0(self, value: Option<String>) -> (r: Self)
        ensures
            r@ == (CityTaxlotView { situs_suf0: opt_text(value), ..self@ }),
    {
        let mut r = self;
        r.situs_suf0 = value;
        r
    }

    /// The same, but with another value for: the situs zip.
    pub fn with_situs_zip(self, value: i32) -> (r: Self)
        ensures
            r@ == (CityTaxlotView { situs_zip: value, ..self@ }),
    {
        let mut r = self;
        r.situs_zip = value;
        r
    }

    /// The same, but with another value for: the sptb codes.
    pub fn with_sptb_codes(self, value: Option<String>) -> (r: Self)
        ensures
            r@ == (CityTaxlotView { sptb_codes: opt_text(value), ..self@ }),
    {
        let mut r = self;
        r.sptb_codes = value;
        r
    }

    /// The same, but with another value for: the bit pattern of the square feet.
    pub fn with_square_feet(self, value: Option<u64>) -> (r: Self)
        ensures
            r@ == (CityTaxlotView { square_feet: value, ..self@ }),
    {
        let mut r = self;
        r.square_feet = value;
        r
    }

    /// The same, but with another value for: the bit pattern of the taxes.
    pub fn with_taxes(self, value: Option<u64>) -> (r: Self)
        ensures
            r@ == (CityTaxlotView { taxes: value, ..self@ }),
    {
        let mut r = self;
        r.taxes = value;
        r
    }

    /// The same, but with another value for: the lot type.
    pub fn with_lot_type(self, value: String) -> (r: Self)
        ensures
            r@ == (CityTaxlotView { lot_type: value@, ..self@ }),
    {
        let mut r = self;
        r.lot_type = value;
        r
    }

    /// The same, but with another value for: the bit pattern of the year built.
    pub fn with_year_built(self, value: Option<u64>) -> (r: Self)
        ensures
            r@ == (CityTaxlotView { year_built: value, ..self@ }),
    {
        let mut r = self;
        r.year_built = value;
        r
    }

    /// The same, but with another value for: the zone.
    pub fn with_zone(self, value: String) -> (r: Self)
        ensures
            r@ == (CityTaxlotView { zone: value@, ..self@ }),
    {
        let mut r = self;
        r.zone = value;
        r
    }
}

/// The tax lots as the city keeps them.
#[derive(Debug, PartialEq)]
pub struct CityTaxlots(pub Vec<CityTaxlot>);

impl View for CityTaxlots {
    type V = Seq<CityTaxlotView>;

    open spec fn view(&self) -> Seq<CityTaxlotView> {
        Seq::new(self.0@.len(), |i: int| self.0@[i]@)
    }
}

impl Clone for CityTaxlots {
    fn clone(&self) -> (r: Self)
        ensures
            r@ == self@,
    {
        let mut items: Vec<CityTaxlot> = Vec::new();
        let mut i: usize = 0;
        while i < self.0.len()
            invariant
                i <= self.0.len(),
                items@.len() == i,
                forall|k: int| 0 <= k < i ==> (#[trigger] items@[k])@ == self.0@[k]@,
            decreases self.0.len() - i,
        {
            items.push(self.0[i].clone());
            i = i + 1;
        }
        let r = CityTaxlots(items);
        assert(r@ =~= self@);
        r
    }
}

impl CityTaxlots {
    /// The list of the given tax lots.
    pub fn new(items: Vec<CityTaxlot>) -> (r: Self)
        ensures
            r.0 == items,
    {
        CityTaxlots(items)
    }

    /// How many tax lots there are.
    pub fn len(&self) -> (r: usize)
        ensures
            r == self@.len(),
    {
        self.0.len()
    }
}

impl Default for CityTaxlot {
    fn default() -> (r: Self)
        ensures
            r@ == (CityTaxlotView {
                account: Seq::<char>::empty(),
                acreage: None,
                addr1: Seq::<char>::empty(),
                addr2: None,
                addr3: None,
                address: Seq::<char>::empty(),
                appraised_value: None,
                assessed_value: None,
                bedrooms: None,
                building_class: None,
                block: None,
                code: Seq::<char>::empty(),
                comp_mtl: None,
                csz: Seq::<char>::empty(),
                deed_type: Seq::<char>::empty(),
                doc_link: Seq::<char>::empty(),
                gis_acres: 0,
                imp_value: None,
                instrument_number: None,
                land_appraised: None,
                land_market: None,
                latitude: 0,
                legal_acre: None,
                living_area: None,
                location_description: None,
                longitude: 0,
                lot: None,
                lot_1: None,
                maint: Seq::<char>::empty(),
                map_number: Seq::<char>::empty(),
                mnx: Seq::<char>::empty(),
                owner_name: Seq::<char>::empty(),
                neighborhood: Seq::<char>::empty(),
                property_class: 0,
                retail_market_value: None,
                sale_date: None,
                sale_price: None,
                sale_type: None,
                school_district: Seq::<char>::empty(),
                situs: Seq::<char>::empty(),
                situs_city: Seq::<char>::empty(),
                situs_pref: None,
                situs_state: Seq::<char>::empty(),
                situs_suf0: None,
                situs_zip: 0,
                sptb_codes: None,
                square_feet: None,
                taxes: None,
                lot_type: Seq::<char>::empty(),
                year_built: None,
                zone: Seq::<char>::empty(),
            }),
    {
        CityTaxlot {
            account: String::new(),
            acreage: None,
            addr1: String::new(),
            addr2: None,
            addr3: None,
            address: String::new(),
            appraised_value: None,
            assessed_value: None,
            bedrooms: None,
            building_class: None,
            block: None,
            code: String::new(),
            comp_mtl: None,
            csz: String::new(),
            deed_type: String::new(),
            doc_link: String::new(),
            gis_acres: 0,
            imp_value: None,
            instrument_number: None,
            land_appraised: None,
            land_market: None,
            latitude: 0,
            legal_acre: None,
            living_area: None,
            location_description: None,
            longitude: 0,
            lot: None,
            lot_1: None,
            maint: String::new(),
            map_number: String::new(),
            mnx: String::new(),
            owner_name: String::new(),
            neighborhood: String::new(),
            property_class: 0,
            retail_market_value: None,
            sale_date: None,
            sale_price: None,
            sale_type: None,
            school_district: String::new(),
            situs: String::new(),
            situs_city: String::new(),
            situs_pref: None,
            situs_state: String::new(),
            situs_suf0: None,
            situs_zip: 0,
            sptb_codes: None,
            square_feet: None,
            taxes: None,
            lot_type: String::new(),
            year_built: None,
            zone: String::new(),
        }
    }
}

/// The addresses of the tax lots, in their order.
pub open spec fn addresses_of(lots: Seq<CityTaxlotView>) -> Seq<Seq<char>> {
    Seq::new(lots.len(), |i: int| lots[i].address)
}

/// The names of the owners of the tax lots, in their order.
pub open spec fn owner_names_of(lots: Seq<CityTaxlotView>) -> Seq<Seq<char>> {
    Seq::new(lots.len(), |i: int| lots[i].owner_name)
}

/// Whether an address is one of an owner: some tax lot has both.
pub open spec fn is_address_of(lots: Seq<CityTaxlotView>, address: Seq<char>, name: Seq<char>) -> bool {
    exists|i: int| 0 <= i < lots.len() && (#[trigger] lots[i]).owner_name == name && lots[i].address == address
}

impl CityTaxlots {
    /// The addresses of the tax lots, in their order.
    pub fn addresses(&self) -> (r: Vec<String>)
        ensures
            texts(r@) == addresses_of(self@),
    {
        let mut res: Vec<String> = Vec::new();
        let mut i: usize = 0;
        while i < self.0.len()
            invariant
                i <= self.0.len(),
                res@.len() == i,
                forall|k: int| 0 <= k < i ==> (#[trigger] res@[k])@ == self@[k].address,
            decreases self.0.len() - i,
        {
            res.push(self.0[i].address().clone());
            i = i + 1;
        }
        assert(texts(res@) =~= addresses_of(self@));
        res
    }

    /// The names of the owners of the tax lots, in their order.
    pub fn owner_names(&self) -> (r: Vec<String>)
        ensures
            texts(r@) == owner_names_of(self@),
    {
        let mut res: Vec<String> = Vec::new();
        let mut i: usize = 0;
        while i < self.0.len()
            invariant
                i <= self.0.len(),
                res@.len() == i,
                forall|k: int| 0 <= k < i ==> (#[trigger] res@[k])@ == self@[k].owner_name,
            decreases self.0.len() - i,
        {
            res.push(self.0[i].owner_name().clone());
            i = i + 1;
        }
        assert(texts(res@) =~= owner_names_of(self@));
        res
    }

    /// The addresses of the tax lots of an owner, in ascending order and
    /// each once.
    pub fn associated_addresses(&self, name: &str) -> (r: Vec<String>)
        ensures
            texts_ascend(texts(r@)),
            forall|address: Seq<char>|
                texts(r@).contains(address) <==> is_address_of(self@, address, name@),
    {
        let wanted = name.to_owned();
        let mut res: Vec<String> = Vec::new();
        let mut i: usize = 0;
        while i < self.0.len()
            invariant
                i <= self.0.len(),
                wanted@ == name@,
                forall|k: int|
                    0 <= k < res@.len() ==> is_address_of(self@, (#[trigger] res@[k])@, name@),
                forall|k: int|
                    0 <= k < i && self@[k].owner_name == name@ ==> texts(res@).contains(
                        (#[trigger] self@[k]).address,
                    ),
            decreases self.0.len() - i,
        {
            let ghost before = res@;
            if *self.0[i].owner_name() == wanted {
                res.push(self.0[i].address().clone());
                assert(self@[i as int].owner_name == name@ && self@[i as int].address
                    == res@[res@.len() - 1]@);
                assert forall|k: int|
                    0 <= k < i + 1 && self@[k].owner_name == name@ implies texts(res@).contains(
                    (#[trigger] self@[k]).address,
                ) by {
                    if k < i {
                        let j = choose|j: int|
                            0 <= j < texts(before).len() && texts(before)[j] == self@[k].address;
                        assert(texts(res@)[j] == self@[k].address);
                    } else {
                        assert(texts(res@)[res@.len() - 1] == self@[k].address);
                    }
                }
            }
            i = i + 1;
        }
        let ghost found = texts(res@);
        let r = sorted_texts(res);
        proof {
            assert forall|address: Seq<char>| texts(r@).contains(address) <==> is_address_of(
                self@,
                address,
                name@,
            ) by {
                if found.contains(address) {
                    let k = choose|k: int| 0 <= k < found.len() && found[k] == address;
                    assert(is_address_of(self@, res@[k]@, name@));
                }
                if is_address_of(self@, address, name@) {
                    let k = choose|k: int|
                        0 <= k < self@.len() && (#[trigger] self@[k]).owner_name == name@
                            && self@[k].address == address;
                    assert(found.contains(self@[k].address));
                }
            }
        }
        r
    }

    /// The names of the owners of the tax lots at an address, in ascending
    /// order and each once.
    pub fn associated_names(&self, address: &str) -> (r: Vec<String>)
        ensures
            texts_ascend(texts(r@)),
            forall|name: Seq<char>|
                texts(r@).contains(name) <==> is_address_of(self@, address@, name),
    {
        let wanted = address.to_owned();
        let mut res: Vec<String> = Vec::new();
        let mut i: usize = 0;
        while i < self.0.len()
            invariant
                i <= self.0.len(),
                wanted@ == address@,
                forall|k: int|
                    0 <= k < res@.len() ==> is_address_of(self@, address@, (#[trigger] res@[k])@),
                forall|k: int|
                    0 <= k < i && self@[k].address == address@ ==> texts(res@).contains(
                        (#[trigger] self@[k]).owner_name,
                    ),
            decreases self.0.len() - i,
        {
            let ghost before = res@;
            if *self.0[i].address() == wanted {
                res.push(self.0[i].owner_name().clone());
                assert(self@[i as int].owner_name == res@[res@.len() - 1]@ && self@[i as int].address
                    == address@);
                assert forall|k: int|
                    0 <= k < i + 1 && self@[k].address == address@ implies texts(res@).contains(
                    (#[trigger] self@[k]).owner_name,
                ) by {
                    if k < i {
                        let j = choose|j: int|
                            0 <= j < texts(before).len() && texts(before)[j] == self@[k].owner_name;
                        assert(texts(res@)[j] == self@[k].owner_name);
                    } else {
                        assert(texts(res@)[res@.len() - 1] == self@[k].owner_name);
                    }
                }
            }
            i = i + 1;
        }
        let ghost found = texts(res@);
        let r = sorted_texts(res);
        proof {
            assert forall|name: Seq<char>| texts(r@).contains(name) <==> is_address_of(
                self@,
                address@,
                name,
            ) by {
                if found.contains(name) {
                    let k = choose|k: int| 0 <= k < found.len() && found[k] == name;
                    assert(is_address_of(self@, address@, res@[k]@));
                }
                if is_address_of(self@, address@, name) {
                    let k = choose|k: int|
                        0 <= k < self@.len() && (#[trigger] self@[k]).owner_name == name
                            && self@[k].address == address@;
                    assert(found.contains(self@[k].owner_name));
                }
            }
        }
        r
    }
}

} // verus!
