//! Businesses and the industries they belong to.
use crate::error::Error;
use crate::import::city_taxlot;
use crate::import::city_taxlot::{CityTaxlotView, CityTaxlots};
use crate::import::county_taxlot;
use crate::import::county_taxlot::{CountyTaxlotView, CountyTaxlots};
use crate::order::{
    contains_text, same_values, sorted_texts, text_le, text_lt, texts, texts_ascend,
};
use crate::text::{clone_opt, opt_text, same};
use vstd::prelude::*;

verus! {

/// A code of the North American Industry Classification System, with its name
/// and what it covers.
#[derive(Debug, PartialEq)]
pub struct IndustryCode {
    /// The code.
    pub code: i32,
    /// The name of the industry.
    pub name: String,
    /// What the industry covers.
    pub description: String,
}

/// What an industry code holds.
pub struct IndustryCodeView {
    pub code: i32,
    pub name: Seq<char>,
    pub description: Seq<char>,
}

impl View for IndustryCode {
    type V = IndustryCodeView;

    open spec fn view(&self) -> IndustryCodeView {
        IndustryCodeView {
            code: self.code,
            name: self.name@,
            description: self.description@,
        }
    }
}

impl Clone for IndustryCode {
    fn clone(&self) -> (r: Self)
        ensures
            r@ == self@,
    {
        IndustryCode {
            code: self.code,
            name: self.name.clone(),
            description: self.description.clone(),
        }
    }
}

/// The codes of the classification.
#[derive(Debug, PartialEq)]
pub struct IndustryCodes(pub Vec<IndustryCode>);

impl View for IndustryCodes {
    type V = Seq<IndustryCodeView>;

    open spec fn view(&self) -> Seq<IndustryCodeView> {
        Seq::new(self.0@.len(), |i: int| self.0@[i]@)
    }
}

impl Clone for IndustryCodes {
    fn clone(&self) -> (r: Self)
        ensures
            r@ == self@,
    {
        let mut items: Vec<IndustryCode> = Vec::new();
        let mut i: usize = 0;
        while i < self.0.len()
            invariant
                i <= self.0.len(),
                items@.len() == i,
                forall|k: int| 0 <= k < i ==> (#[trigger] items@[k])@ == self.0@[k]@,
            decreases self.0.len() - i,
        {
            items.push(self.0[i].clone());
            i = i + 1;
        }
        let r = IndustryCodes(items);
        assert(r@ =~= self@);
        r
    }
}

impl IndustryCodes {
    /// The list of the given codes.
    pub fn new(items: Vec<IndustryCode>) -> (r: Self)
        ensures
            r.0 == items,
    {
        IndustryCodes(items)
    }

    /// How many codes there are.
    pub fn len(&self) -> (r: usize)
        ensures
            r == self@.len(),
    {
        self.0.len()
    }
}

/// The first digits of a number, as many as make it less than `limit`.
pub open spec fn leading(code: int, limit: int) -> int
    decreases code,
{
    if code < limit || limit <= 0 {
        code
    } else {
        leading(code / 10, limit)
    }
}

/// The first digits of a number, as many as make it less than `limit`.
fn leading_digits(code: i32, limit: i32) -> (r: i32)
    requires
        limit > 0,
        code >= 0,
    ensures
        r == leading(code as int, limit as int),
        0 <= r <= code,
        r < limit,
        code >= limit / 10 ==> r >= limit / 10,
{
    let mut c = code;
    while c >= limit
        invariant
            0 <= c <= code,
            limit > 0,
            leading(c as int, limit as int) == leading(code as int, limit as int),
            code >= limit / 10 ==> c >= limit / 10,
        decreases c,
    {
        c = c / 10;
    }
    c
}

/// The name of the sector with the given two-digit code.
pub open spec fn sector_name(sector: int) -> Option<Seq<char>> {
    if sector == 11 {
        Some("Agriculture, Forestry, Fishing and Hunting"@)
    } else if sector == 21 {
        Some("Mining"@)
    } else if sector == 22 {
        Some("Utilities"@)
    } else if sector == 23 {
        Some("Construction"@)
    } else if 31 <= sector <= 33 {
        Some("Manufacturing"@)
    } else if sector == 42 {
        Some("Wholesale Trade"@)
    } else if 44 <= sector <= 45 {
        Some("Retail Trade"@)
    } else if 48 <= sector <= 49 {
        Some("Transportation and Warehousing"@)
    } else if sector == 51 {
        Some("Information"@)
    } else if sector == 52 {
        Some("Finance and Insurance"@)
    } else if sector == 53 {
        Some("Real Estate Rental and Leasing"@)
    } else if sector == 54 {
        Some("Professional, Scientific and Technical Services"@)
    } else if sector == 55 {
        Some("Management of Companies and Enterprises"@)
    } else if sector == 56 {
        Some("Administrative, Support and Waste Services"@)
    } else if sector == 61 {
        Some("Educational Services"@)
    } else if sector == 62 {
        Some("Health Care and Social Assistance"@)
    } else if sector == 71 {
        Some("Arts, Entertainment and Recreation"@)
    } else if sector == 72 {
        Some("Accommodation and Food Services"@)
    } else if sector == 81 {
        Some("Other Services (except Public Administration)"@)
    } else if sector == 92 {
        Some("Public Administration"@)
    } else {
        None
    }
}

/// The name of the subsector with the given four-digit code, for the
/// subsectors of trade, leisure and hospitality.
pub open spec fn subsector_name(subsector: int) -> Option<Seq<char>> {
    if subsector == 4411 {
        Some("Automobile Dealers"@)
    } else if subsector == 4412 {
        Some("Other Motor Vehicle Dealers"@)
    } else if subsector == 4413 {
        Some("Automotive Parts, Accessories and Tire Stores"@)
    } else if subsector == 4421 {
        Some("Furniture Stores"@)
    } else if subsector == 4422 {
        Some("Home Furnishings Stores"@)
    } else if subsector == 4431 {
        Some("Electronics and Appliance Stores"@)
    } else if subsector == 4441 {
        Some("Building Material and Supplies Dealers"@)
    } else if subsector == 4442 {
        Some("Lawn and Garden Equipment and Supplies Stores"@)
    } else if subsector == 4451 {
        Some("Grocery Stores"@)
    } else if subsector == 4452 {
        Some("Specialty Food Stores"@)
    } else if subsector == 4453 {
        Some("Beer, Wine and Liquor Stores"@)
    } else if subsector == 4461 {
        Some("Health and Personal Care Stores"@)
    } else if subsector == 4471 {
        Some("Gasoline Stations"@)
    } else if subsector == 4481 {
        Some("Clothing Stores"@)
    } else if subsector == 4482 {
        Some("Shoe Stores"@)
    } else if subsector == 4483 {
        Some("Jewelry, Luggage and Leather Goods Stores"@)
    } else if subsector == 4511 {
        Some("Sporting Goods, Hobby and Musical Instrument Stores"@)
    } else if subsector == 4512 {
        Some("Book Stores and News Dealers"@)
    } else if subsector == 4521 {
        Some("Department Stores"@)
    } else if subsector == 4529 {
        Some("Other General Merchandise Stores"@)
    } else if subsector == 4531 {
        Some("Florists"@)
    } else if subsector == 4532 {
        Some("Office Supplies, Stationary and Gift Stores"@)
    } else if subsector == 4533 {
        Some("Used Merchandise Stores"@)
    } else if subsector == 4539 {
        Some("Other Miscellaneous Store Retailers"@)
    } else if subsector == 4541 {
        Some("Electronic Shopping and Mail-Order Houses"@)
    } else if subsector == 4542 {
        Some("Vending Machine Operators"@)
    } else if subsector == 4543 {
        Some("Direct Selling Establishments"@)
    } else if subsector == 7111 {
        Some("Performing Arts Companies"@)
    } else if subsector == 7112 {
        Some("Spectator Sports"@)
    } else if subsector == 7113 {
        Some("Promoters of Performing Arts, Sports and Similar Events"@)
    } else if subsector == 7114 {
        Some("Agents and Managers for Artists, Athletes, Entertainers and Other Public Figures"@)
    } else if subsector == 7115 {
        Some("Independent Artists, Writers and Performers"@)
    } else if subsector == 7121 {
        Some("Museums, Historical Sites and Similar Institutions"@)
    } else if subsector == 7131 {
        Some("Amusement Parks and Arcades"@)
    } else if subsector == 7132 {
        Some("Gambling Industries"@)
    } else if subsector == 7139 {
        Some("Other Amusement and Recreation Industries"@)
    } else if subsector == 7211 {
        Some("Traveler Accommodation"@)
    } else if subsector == 7212 {
        Some("RV (Recreational Vehicle) Parks and Recreational Camps"@)
    } else if subsector == 7213 {
        Some("Rooming and Boarding Houses"@)
    } else if subsector == 7223 {
        Some("Special Food Services"@)
    } else if subsector == 7224 {
        Some("Drinking Places (Alcoholic Beverages)"@)
    } else if subsector == 7225 {
        Some("Restaurants and Other Eating Places"@)
    } else {
        None
    }
}

/// What a visitor would call the businesses of a subsector.
pub open spec fn tourism_by_subsector(subsector: int) -> Option<Seq<char>> {
    if subsector == 4411 {
        Some("Shopping"@)
    } else if subsector == 4412 {
        Some("Shopping"@)
    } else if subsector == 4413 {
        Some("Shopping"@)
    } else if subsector == 4421 {
        Some("Shopping"@)
    } else if subsector == 4422 {
        Some("Shopping"@)
    } else if subsector == 4431 {
        Some("Shopping"@)
    } else if subsector == 4442 {
        Some("Shopping"@)
    } else if subsector == 4451 {
        Some("Grocery Stores"@)
    } else if subsector == 4452 {
        Some("Grocery Stores"@)
    } else if subsector == 4453 {
        Some("Beer, Wine & Liquor Stores"@)
    } else if subsector == 4461 {
        Some("Shopping"@)
    } else if subsector == 4471 {
        Some("Gas"@)
    } else if subsector == 4481 {
        Some("Clothing & Accessories"@)
    } else if subsector == 4482 {
        Some("Clothing & Accessories"@)
    } else if subsector == 4483 {
        Some("Clothing & Accessories"@)
    } else if subsector == 4511 {
        Some("Shopping"@)
    } else if subsector == 4512 {
        Some("Shopping"@)
    } else if subsector == 4521 {
        Some("Shopping"@)
    } else if subsector == 4529 {
        Some("Shopping"@)
    } else if subsector == 4531 {
        Some("Shopping"@)
    } else if subsector == 4532 {
        Some("Shopping"@)
    } else if subsector == 4533 {
        Some("Shopping"@)
    } else if subsector == 4539 {
        Some("Shopping"@)
    } else if subsector == 4541 {
        Some("Shopping"@)
    } else if subsector == 4542 {
        Some("Shopping"@)
    } else if subsector == 4543 {
        Some("Shopping"@)
    } else if subsector == 7111 {
        Some("Entertainment"@)
    } else if subsector == 7112 {
        Some("Entertainment"@)
    } else if subsector == 7113 {
        Some("Entertainment"@)
    } else if subsector == 7115 {
        Some("Entertainment"@)
    } else if subsector == 7121 {
        Some("Entertainment"@)
    } else if subsector == 7131 {
        Some("Entertainment"@)
    } else if subsector == 7132 {
        Some("Entertainment"@)
    } else if subsector == 7139 {
        Some("Entertainment"@)
    } else if subsector == 7211 {
        Some("Accommodation"@)
    } else if subsector == 7212 {
        Some("Accommodation"@)
    } else if subsector == 7213 {
        Some("Accommodation"@)
    } else if subsector == 7223 {
        Some("Food & Drink"@)
    } else if subsector == 7224 {
        Some("Cocktails, Wine & Beer"@)
    } else if subsector == 7225 {
        Some("Food & Drink"@)
    } else {
        None
    }
}

/// What a visitor would call the businesses of an industry: a few industries
/// have a name of their own, the others that of their subsector.
pub open spec fn tourism_by_code(code: int, otherwise: Option<Seq<char>>) -> Option<Seq<char>> {
    if code == 312120 {
        Some("Cocktails, Wine & Beer"@)
    } else if code == 312130 {
        Some("Cocktails, Wine & Beer"@)
    } else if code == 451110 {
        Some("Firearms"@)
    } else if code == 522110 {
        Some("Bank"@)
    } else if code == 522130 {
        Some("Bank"@)
    } else if code == 721191 {
        Some("Bed & Breakfast Inn"@)
    } else if code == 722515 {
        Some("Coffee & Snacks"@)
    } else if code == 812111 {
        Some("Salon"@)
    } else if code == 812112 {
        Some("Salon"@)
    } else if code == 812113 {
        Some("Salon"@)
    } else {
        otherwise
    }
}

/// The place of the first code of a list that is the given one, or the
/// length of the list where none is.
pub open spec fn first_code(codes: Seq<IndustryCodeView>, code: i32) -> int
    decreases codes.len(),
{
    if codes.len() == 0 {
        0
    } else if codes.first().code == code {
        0
    } else {
        1 + first_code(codes.drop_first(), code)
    }
}

/// Where no code before a place is the given one, the first that is one is
/// not before that place.
pub proof fn lemma_first_code(codes: Seq<IndustryCodeView>, code: i32, i: int)
    requires
        0 <= i <= codes.len(),
        forall|k: int| 0 <= k < i ==> codes[k].code != code,
    ensures
        0 <= first_code(codes, code) <= codes.len(),
        i < codes.len() && codes[i].code == code ==> first_code(codes, code) == i,
        i == codes.len() ==> first_code(codes, code) == i,
        first_code(codes, code) < codes.len() ==> codes[first_code(codes, code)].code == code,
    decreases codes.len(),
{
    if codes.len() > 0 {
        let rest = codes.drop_first();
        if i > 0 {
            assert(codes[0].code != code);
            assert forall|k: int| 0 <= k < i - 1 implies rest[k].code != code by {
                assert(rest[k] == codes[k + 1]);
            }
            lemma_first_code(rest, code, i - 1);
            if i < codes.len() {
                assert(rest[i - 1] == codes[i]);
            }
        } else {
            lemma_first_code(rest, code, 0);
        }
    }
}

impl IndustryCode {
    /// The code with its name and what it covers.
    pub fn new(code: i32, name: String, description: String) -> (r: Self)
        ensures
            r@ == (IndustryCodeView { code, name: name@, description: description@ }),
    {
        IndustryCode { code, name, description }
    }

    /// The code of the sector: the first two digits of the code, which must
    /// have two at least.
    pub fn sector_code(&self) -> (r: i32)
        requires
            self.code >= 10,
        ensures
            r == leading(self.code as int, 100),
            10 <= r <= 99,
    {
        leading_digits(self.code, 100)
    }

    /// The name of the sector, for the sectors of the classification.
    pub fn sector(&self) -> (r: Option<String>)
        requires
            self.code >= 10,
        ensures
            opt_text(r) == sector_name(leading(self.code as int, 100)),
    {
        let code = self.sector_code();
        if code == 11 {
            Some("Agriculture, Forestry, Fishing and Hunting".to_owned())
        } else if code == 21 {
            Some("Mining".to_owned())
        } else if code == 22 {
            Some("Utilities".to_owned())
        } else if code == 23 {
            Some("Construction".to_owned())
        } else if 31 <= code && code <= 33 {
            Some("Manufacturing".to_owned())
        } else if code == 42 {
            Some("Wholesale Trade".to_owned())
        } else if 44 <= code && code <= 45 {
            Some("Retail Trade".to_owned())
        } else if 48 <= code && code <= 49 {
            Some("Transportation and Warehousing".to_owned())
        } else if code == 51 {
            Some("Information".to_owned())
        } else if code == 52 {
            Some("Finance and Insurance".to_owned())
        } else if code == 53 {
            Some("Real Estate Rental and Leasing".to_owned())
        } else if code == 54 {
            Some("Professional, Scientific and Technical Services".to_owned())
        } else if code == 55 {
            Some("Management of Companies and Enterprises".to_owned())
        } else if code == 56 {
            Some("Administrative, Support and Waste Services".to_owned())
        } else if code == 61 {
            Some("Educational Services".to_owned())
        } else if code == 62 {
            Some("Health Care and Social Assistance".to_owned())
        } else if code == 71 {
            Some("Arts, Entertainment and Recreation".to_owned())
        } else if code == 72 {
            Some("Accommodation and Food Services".to_owned())
        } else if code == 81 {
            Some("Other Services (except Public Administration)".to_owned())
        } else if code == 92 {
            Some("Public Administration".to_owned())
        } else {
            None
        }
    }

    /// The code of the subsector: the first four digits of the code, which
    /// must have four at least.
    pub fn subsector_code(&self) -> (r: i32)
        requires
            self.code >= 1000,
        ensures
            r == leading(self.code as int, 10000),
            1000 <= r <= 9999,
    {
        leading_digits(self.code, 10000)
    }

    /// The name of the subsector, for the subsectors of trade, leisure and
    /// hospitality.
    pub fn subsector(&self) -> (r: Option<String>)
        requires
            self.code >= 1000,
        ensures
            opt_text(r) == subsector_name(leading(self.code as int, 10000)),
    {
        let code = self.subsector_code();
        if code == 4411 {
            Some("Automobile Dealers".to_owned())
        } else if code == 4412 {
            Some("Other Motor Vehicle Dealers".to_owned())
        } else if code == 4413 {
            Some("Automotive Parts, Accessories and Tire Stores".to_owned())
        } else if code == 4421 {
            Some("Furniture Stores".to_owned())
        } else if code == 4422 {
            Some("Home Furnishings Stores".to_owned())
        } else if code == 4431 {
            Some("Electronics and Appliance Stores".to_owned())
        } else if code == 4441 {
            Some("Building Material and Supplies Dealers".to_owned())
        } else if code == 4442 {
            Some("Lawn and Garden Equipment and Supplies Stores".to_owned())
        } else if code == 4451 {
            Some("Grocery Stores".to_owned())
        } else if code == 4452 {
            Some("Specialty Food Stores".to_owned())
        } else if code == 4453 {
            Some("Beer, Wine and Liquor Stores".to_owned())
        } else if code == 4461 {
            Some("Health and Personal Care Stores".to_owned())
        } else if code == 4471 {
            Some("Gasoline Stations".to_owned())
        } else if code == 4481 {
            Some("Clothing Stores".to_owned())
        } else if code == 4482 {
            Some("Shoe Stores".to_owned())
        } else if code == 4483 {
            Some("Jewelry, Luggage and Leather Goods Stores".to_owned())
        } else if code == 4511 {
            Some("Sporting Goods, Hobby and Musical Instrument Stores".to_owned())
        } else if code == 4512 {
            Some("Book Stores and News Dealers".to_owned())
        } else if code == 4521 {
            Some("Department Stores".to_owned())
        } else if code == 4529 {
            Some("Other General Merchandise Stores".to_owned())
        } else if code == 4531 {
            Some("Florists".to_owned())
        } else if code == 4532 {
            Some("Office Supplies, Stationary and Gift Stores".to_owned())
        } else if code == 4533 {
            Some("Used Merchandise Stores".to_owned())
        } else if code == 4539 {
            Some("Other Miscellaneous Store Retailers".to_owned())
        } else if code == 4541 {
            Some("Electronic Shopping and Mail-Order Houses".to_owned())
        } else if code == 4542 {
            Some("Vending Machine Operators".to_owned())
        } else if code == 4543 {
            Some("Direct Selling Establishments".to_owned())
        } else if code == 7111 {
            Some("Performing Arts Companies".to_owned())
        } else if code == 7112 {
            Some("Spectator Sports".to_owned())
        } else if code == 7113 {
            Some("Promoters of Performing Arts, Sports and Similar Events".to_owned())
        } else if code == 7114 {
            Some("Agents and Managers for Artists, Athletes, Entertainers and Other Public Figures".to_owned())
        } else if code == 7115 {
            Some("Independent Artists, Writers and Performers".to_owned())
        } else if code == 7121 {
            Some("Museums, Historical Sites and Similar Institutions".to_owned())
        } else if code == 7131 {
            Some("Amusement Parks and Arcades".to_owned())
        } else if code == 7132 {
            Some("Gambling Industries".to_owned())
        } else if code == 7139 {
            Some("Other Amusement and Recreation Industries".to_owned())
        } else if code == 7211 {
            Some("Traveler Accommodation".to_owned())
        } else if code == 7212 {
            Some("RV (Recreational Vehicle) Parks and Recreational Camps".to_owned())
        } else if code == 7213 {
            Some("Rooming and Boarding Houses".to_owned())
        } else if code == 7223 {
            Some("Special Food Services".to_owned())
        } else if code == 7224 {
            Some("Drinking Places (Alcoholic Beverages)".to_owned())
        } else if code == 7225 {
            Some("Restaurants and Other Eating Places".to_owned())
        } else {
            None
        }
    }

    /// What a visitor would call the business: the name that goes with the
    /// industry, or else the one that goes with its subsector.
    pub fn tourism(&self) -> (r: Option<String>)
        requires
            self.code >= 1000,
        ensures
            opt_text(r) == tourism_by_code(
                self.code as int,
                tourism_by_subsector(leading(self.code as int, 10000)),
            ),
    {
        let code = self.subsector_code();
        let tourism =
        if code == 4411 {
            Some("Shopping".to_owned())
        } else if code == 4412 {
            Some("Shopping".to_owned())
        } else if code == 4413 {
            Some("Shopping".to_owned())
        } else if code == 4421 {
            Some("Shopping".to_owned())
        } else if code == 4422 {
            Some("Shopping".to_owned())
        } else if code == 4431 {
            Some("Shopping".to_owned())
        } else if code == 4442 {
            Some("Shopping".to_owned())
        } else if code == 4451 {
            Some("Grocery Stores".to_owned())
        } else if code == 4452 {
            Some("Grocery Stores".to_owned())
        } else if code == 4453 {
            Some("Beer, Wine & Liquor Stores".to_owned())
        } else if code == 4461 {
            Some("Shopping".to_owned())
        } else if code == 4471 {
            Some("Gas".to_owned())
        } else if code == 4481 {
            Some("Clothing & Accessories".to_owned())
        } else if code == 4482 {
            Some("Clothing & Accessories".to_owned())
        } else if code == 4483 {
            Some("Clothing & Accessories".to_owned())
        } else if code == 4511 {
            Some("Shopping".to_owned())
        } else if code == 4512 {
            Some("Shopping".to_owned())
        } else if code == 4521 {
            Some("Shopping".to_owned())
        } else if code == 4529 {
            Some("Shopping".to_owned())
        } else if code == 4531 {
            Some("Shopping".to_owned())
        } else if code == 4532 {
            Some("Shopping".to_owned())
        } else if code == 4533 {
            Some("Shopping".to_owned())
        } else if code == 4539 {
            Some("Shopping".to_owned())
        } else if code == 4541 {
            Some("Shopping".to_owned())
        } else if code == 4542 {
            Some("Shopping".to_owned())
        } else if code == 4543 {
            Some("Shopping".to_owned())
        } else if code == 7111 {
            Some("Entertainment".to_owned())
        } else if code == 7112 {
            Some("Entertainment".to_owned())
        } else if code == 7113 {
            Some("Entertainment".to_owned())
        } else if code == 7115 {
            Some("Entertainment".to_owned())
        } else if code == 7121 {
            Some("Entertainment".to_owned())
        } else if code == 7131 {
            Some("Entertainment".to_owned())
        } else if code == 7132 {
            Some("Entertainment".to_owned())
        } else if code == 7139 {
            Some("Entertainment".to_owned())
        } else if code == 7211 {
            Some("Accommodation".to_owned())
        } else if code == 7212 {
            Some("Accommodation".to_owned())
        } else if code == 7213 {
            Some("Accommodation".to_owned())
        } else if code == 7223 {
            Some("Food & Drink".to_owned())
        } else if code == 7224 {
            Some("Cocktails, Wine & Beer".to_owned())
        } else if code == 7225 {
            Some("Food & Drink".to_owned())
        } else {
            None
        };
        let code = self.code;
        if code == 312120 {
            Some("Cocktails, Wine & Beer".to_owned())
        } else if code == 312130 {
            Some("Cocktails, Wine & Beer".to_owned())
        } else if code == 451110 {
            Some("Firearms".to_owned())
        } else if code == 522110 {
            Some("Bank".to_owned())
        } else if code == 522130 {
            Some("Bank".to_owned())
        } else if code == 721191 {
            Some("Bed & Breakfast Inn".to_owned())
        } else if code == 722515 {
            Some("Coffee & Snacks".to_owned())
        } else if code == 812111 {
            Some("Salon".to_owned())
        } else if code == 812112 {
            Some("Salon".to_owned())
        } else if code == 812113 {
            Some("Salon".to_owned())
        } else {
            tourism
        }
    }

    /// The first code of the list that is the given one. There must be one.
    pub fn from_code(code: i32, industry_codes: &IndustryCodes) -> (r: Self)
        requires
            first_code(industry_codes@, code) < industry_codes@.len(),
        ensures
            r@ == industry_codes@[first_code(industry_codes@, code)],
            r.code == code,
    {
        let mut i: usize = 0;
        while i < industry_codes.0.len()
            invariant
                i <= industry_codes.0.len(),
                first_code(industry_codes@, code) < industry_codes@.len(),
                forall|k: int| 0 <= k < i ==> industry_codes@[k].code != code,
            decreases industry_codes.0.len() - i,
        {
            if industry_codes.0[i].code == code {
                proof {
                    lemma_first_code(industry_codes@, code, i as int);
                }
                return industry_codes.0[i].clone();
            }
            i = i + 1;
        }
        proof {
            lemma_first_code(industry_codes@, code, i as int);
        }
        IndustryCode { code, name: String::new(), description: String::new() }
    }
}

impl IndustryCodes {
    /// The codes of the list.
    pub fn records_ref(&self) -> (r: &Vec<IndustryCode>)
        ensures
            *r == self.0,
    {
        &self.0
    }
}

/// An industry with the sector and the subsector it belongs to.
#[derive(Debug, PartialEq)]
pub struct IndustryInfo {
    /// The code of the industry.
    pub industry_code: i32,
    /// The name of the industry.
    pub industry_name: String,
    /// What the industry covers.
    pub industry_description: String,
    /// The code of the sector.
    pub sector_code: i32,
    /// The name of the sector.
    pub sector_name: String,
    /// The code of the subsector.
    pub subsector_code: i32,
    /// The name of the subsector.
    pub subsector_name: String,
    /// What a visitor would call the business.
    pub tourism: String,
}

/// What an industry with its sector holds.
pub struct IndustryInfoView {
    pub industry_code: i32,
    pub industry_name: Seq<char>,
    pub industry_description: Seq<char>,
    pub sector_code: i32,
    pub sector_name: Seq<char>,
    pub subsector_code: i32,
    pub subsector_name: Seq<char>,
    pub tourism: Seq<char>,
}

impl View for IndustryInfo {
    type V = IndustryInfoView;

    open spec fn view(&self) -> IndustryInfoView {
        IndustryInfoView {
            industry_code: self.industry_code,
            industry_name: self.industry_name@,
            industry_description: self.industry_description@,
            sector_code: self.sector_code,
            sector_name: self.sector_name@,
            subsector_code: self.subsector_code,
            subsector_name: self.subsector_name@,
            tourism: self.tourism@,
        }
    }
}

impl Clone for IndustryInfo {
    fn clone(&self) -> (r: Self)
        ensures
            r@ == self@,
    {
        IndustryInfo {
            industry_code: self.industry_code,
            industry_name: self.industry_name.clone(),
            industry_description: self.industry_description.clone(),
            sector_code: self.sector_code,
            sector_name: self.sector_name.clone(),
            subsector_code: self.subsector_code,
            subsector_name: self.subsector_name.clone(),
            tourism: self.tourism.clone(),
        }
    }
}

/// The industries of the classification, each with its sector.
#[derive(Debug, PartialEq)]
pub struct IndustryInfos(pub Vec<IndustryInfo>);

impl View for IndustryInfos {
    type V = Seq<IndustryInfoView>;

    open spec fn view(&self) -> Seq<IndustryInfoView> {
        Seq::new(self.0@.len(), |i: int| self.0@[i]@)
    }
}

impl Clone for IndustryInfos {
    fn clone(&self) -> (r: Self)
        ensures
            r@ == self@,
    {
        let mut items: Vec<IndustryInfo> = Vec::new();
        let mut i: usize = 0;
        while i < self.0.len()
            invariant
                i <= self.0.len(),
                items@.len() == i,
                forall|k: int| 0 <= k < i ==> (#[trigger] items@[k])@ == self.0@[k]@,
            decreases self.0.len() - i,
        {
            items.push(self.0[i].clone());
            i = i + 1;
        }
        let r = IndustryInfos(items);
        assert(r@ =~= self@);
        r
    }
}

impl IndustryInfos {
    /// The list of the given industries.
    pub fn new(items: Vec<IndustryInfo>) -> (r: Self)
        ensures
            r.0 == items,
    {
        IndustryInfos(items)
    }

    /// How many industries there are.
    pub fn len(&self) -> (r: usize)
        ensures
            r == self@.len(),
    {
        self.0.len()
    }
}

/// The text, or `Unknown` where there is none.
pub open spec fn or_unknown(text: Option<Seq<char>>) -> Seq<char> {
    match text {
        Some(text) => text,
        None => "Unknown"@,
    }
}

/// The industry of a code, with its sector and its subsector.
pub open spec fn info_of(industry: IndustryCodeView) -> IndustryInfoView {
    IndustryInfoView {
        industry_code: industry.code,
        industry_name: industry.name,
        industry_description: industry.description,
        sector_code: leading(industry.code as int, 100) as i32,
        sector_name: or_unknown(sector_name(leading(industry.code as int, 100))),
        subsector_code: leading(industry.code as int, 10000) as i32,
        subsector_name: or_unknown(subsector_name(leading(industry.code as int, 10000))),
        tourism: or_unknown(
            tourism_by_code(
                industry.code as int,
                tourism_by_subsector(leading(industry.code as int, 10000)),
            ),
        ),
    }
}

fn known_or(text: Option<String>) -> (r: String)
    ensures
        r@ == or_unknown(opt_text(text)),
{
    match text {
        Some(name) => name,
        None => "Unknown".to_owned(),
    }
}

impl IndustryInfo {
    /// The industry of a code, with its sector and its subsector. The code
    /// must have four digits at least.
    pub fn from(industry: &IndustryCode) -> (r: Self)
        requires
            industry.code >= 1000,
        ensures
            r@ == info_of(industry@),
    {
        IndustryInfo {
            industry_code: industry.code,
            industry_name: industry.name.clone(),
            industry_description: industry.description.clone(),
            sector_code: industry.sector_code(),
            sector_name: known_or(industry.sector()),
            subsector_code: industry.subsector_code(),
            subsector_name: known_or(industry.subsector()),
            tourism: known_or(industry.tourism()),
        }
    }
}

impl IndustryInfos {
    /// The industries of the codes, in their order. Every code must have
    /// four digits at least.
    pub fn from(industries: &IndustryCodes) -> (r: Self)
        requires
            forall|i: int| 0 <= i < industries@.len() ==> (#[trigger] industries@[i]).code >= 1000,
        ensures
            r@.len() == industries@.len(),
            forall|i: int| 0 <= i < r@.len() ==> #[trigger] r@[i] == info_of(industries@[i]),
    {
        let mut records: Vec<IndustryInfo> = Vec::new();
        let mut i: usize = 0;
        while i < industries.0.len()
            invariant
                i <= industries.0.len(),
                records@.len() == i,
                forall|k: int|
                    0 <= k < industries@.len() ==> (#[trigger] industries@[k]).code >= 1000,
                forall|k: int| 0 <= k < i ==> (#[trigger] records@[k])@ == info_of(industries@[k]),
            decreases industries.0.len() - i,
        {
            assert(industries@[i as int].code >= 1000);
            records.push(IndustryInfo::from(&industries.0[i]));
            i = i + 1;
        }
        IndustryInfos(records)
    }

    /// The industries of the list, to be changed.
    pub fn records_mut(&mut self) -> (r: &mut Vec<IndustryInfo>)
        ensures
            *r == old(self).0,
            final(self).0 == *final(r),
    {
        &mut self.0
    }
}

/// A business with a license.
#[derive(Debug, PartialEq)]
pub struct Business {
    /// The name of the company.
    pub company_name: String,
    /// Whom to talk to.
    pub contact_name: Option<String>,
    /// The kind of business.
    pub business_type: String,
    /// The name the company does business as.
    pub dba: Option<String>,
    /// The number of the license.
    pub license: String,
    /// The code of the industry.
    pub code: i32,
    /// Notes.
    pub notes: Option<String>,
    /// Who made the record.
    pub created_user: Option<String>,
    /// When the record was made.
    pub created_date: Option<String>,
    /// Who last changed the record.
    pub last_edited_user: Option<String>,
    /// When the record was last changed.
    pub last_edited_date: Option<String>,
    /// The address of the business.
    pub street_address_label: String,
    /// The bit pattern of the first ordinate of the place.
    pub x_coordinate: u64,
    /// The bit pattern of the second ordinate of the place.
    pub y_coordinate: u64,
}

/// What a business holds.
pub struct BusinessView {
    pub company_name: Seq<char>,
    pub contact_name: Option<Seq<char>>,
    pub business_type: Seq<char>,
    pub dba: Option<Seq<char>>,
    pub license: Seq<char>,
    pub code: i32,
    pub notes: Option<Seq<char>>,
    pub created_user: Option<Seq<char>>,
    pub created_date: Option<Seq<char>>,
    pub last_edited_user: Option<Seq<char>>,
    pub last_edited_date: Option<Seq<char>>,
    pub street_address_label: Seq<char>,
    pub x_coordinate: u64,
    pub y_coordinate: u64,
}

impl View for Business {
    type V = BusinessView;

    open spec fn view(&self) -> BusinessView {
        BusinessView {
            company_name: self.company_name@,
            contact_name: opt_text(self.contact_name),
            business_type: self.business_type@,
            dba: opt_text(self.dba),
            license: self.license@,
            code: self.code,
            notes: opt_text(self.notes),
            created_user: opt_text(self.created_user),
            created_date: opt_text(self.created_date),
            last_edited_user: opt_text(self.last_edited_user),
            last_edited_date: opt_text(self.last_edited_date),
            street_address_label: self.street_address_label@,
            x_coordinate: self.x_coordinate,
            y_coordinate: self.y_coordinate,
        }
    }
}

impl Clone for Business {
    fn clone(&self) -> (r: Self)
        ensures
            r@ == self@,
    {
        Business {
            company_name: self.company_name.clone(),
            contact_name: clone_opt(&self.contact_name),
            business_type: self.business_type.clone(),
            dba: clone_opt(&self.dba),
            license: self.license.clone(),
            code: self.code,
            notes: clone_opt(&self.notes),
            created_user: clone_opt(&self.created_user),
            created_date: clone_opt(&self.created_date),
            last_edited_user: clone_opt(&self.last_edited_user),
            last_edited_date: clone_opt(&self.last_edited_date),
            street_address_label: self.street_address_label.clone(),
            x_coordinate: self.x_coordinate,
            y_coordinate: self.y_coordinate,
        }
    }
}

/// The businesses with a license.
#[derive(Debug, PartialEq)]
pub struct Businesses(pub Vec<Business>);

impl View for Businesses {
    type V = Seq<BusinessView>;

    open spec fn view(&self) -> Seq<BusinessView> {
        Seq::new(self.0@.len(), |i: int| self.0@[i]@)
    }
}

impl Clone for Businesses {
    fn clone(&self) -> (r: Self)
        ensures
            r@ == self@,
    {
        let mut items: Vec<Business> = Vec::new();
        let mut i: usize = 0;
        while i < self.0.len()
            invariant
                i <= self.0.len(),
                items@.len() == i,
                forall|k: int| 0 <= k < i ==> (#[trigger] items@[k])@ == self.0@[k]@,
            decreases self.0.len() - i,
        {
            items.push(self.0[i].clone());
            i = i + 1;
        }
        let r = Businesses(items);
        assert(r@ =~= self@);
        r
    }
}

impl Businesses {
    /// The list of the given businesses.
    pub fn new(items: Vec<Business>) -> (r: Self)
        ensures
            r.0 == items,
    {
        Businesses(items)
    }

    /// How many businesses there are.
    pub fn len(&self) -> (r: usize)
        ensures
            r == self@.len(),
    {
        self.0.len()
    }
}

/// A license that is in force.
#[derive(Debug, PartialEq)]
pub struct ActiveLicense {
    /// The code of the industry.
    pub industry_code: i32,
    /// The number of the license.
    pub license: String,
}

/// What a license holds.
pub struct ActiveLicenseView {
    pub industry_code: i32,
    pub license: Seq<char>,
}

impl View for ActiveLicense {
    type V = ActiveLicenseView;

    open spec fn view(&self) -> ActiveLicenseView {
        ActiveLicenseView {
            industry_code: self.industry_code,
            license: self.license@,
        }
    }
}

impl Clone for ActiveLicense {
    fn clone(&self) -> (r: Self)
        ensures
            r@ == self@,
    {
        ActiveLicense {
            industry_code: self.industry_code,
            license: self.license.clone(),
        }
    }
}

/// The licenses that are in force.
#[derive(Debug, PartialEq)]
pub struct ActiveLicenses(pub Vec<ActiveLicense>);

impl View for ActiveLicenses {
    type V = Seq<ActiveLicenseView>;

    open spec fn view(&self) -> Seq<ActiveLicenseView> {
        Seq::new(self.0@.len(), |i: int| self.0@[i]@)
    }
}

impl Clone for ActiveLicenses {
    fn clone(&self) -> (r: Self)
        ensures
            r@ == self@,
    {
        let mut items: Vec<ActiveLicense> = Vec::new();
        let mut i: usize = 0;
        while i < self.0.len()
            invariant
                i <= self.0.len(),
                items@.len() == i,
                forall|k: int| 0 <= k < i ==> (#[trigger] items@[k])@ == self.0@[k]@,
            decreases self.0.len() - i,
        {
            items.push(self.0[i].clone());
            i = i + 1;
        }
        let r = ActiveLicenses(items);
        assert(r@ =~= self@);
        r
    }
}

impl ActiveLicenses {
    /// The list of the given licenses.
    pub fn new(items: Vec<ActiveLicense>) -> (r: Self)
        ensures
            r.0 == items,
    {
        ActiveLicenses(items)
    }

    /// How many licenses there are.
    pub fn len(&self) -> (r: usize)
        ensures
            r == self@.len(),
    {
        self.0.len()
    }
}

/// A business with the industry it belongs to.
#[derive(Debug, PartialEq)]
pub struct BusinessInfo {
    /// The name of the company.
    pub company_name: String,
    /// Whom to talk to.
    pub contact_name: Option<String>,
    /// The name the company does business as.
    pub dba: Option<String>,
    /// The address of the business.
    pub street_address_label: String,
    /// The number of the license.
    pub license: String,
    /// The code of the industry.
    pub industry_code: i32,
    /// The name of the industry.
    pub industry_name: String,
    /// The code of the sector.
    pub sector_code: i32,
    /// The name of the sector.
    pub sector_name: Option<String>,
    /// The code of the subsector.
    pub subsector_code: i32,
    /// The name of the subsector.
    pub subsector_name: Option<String>,
    /// What a visitor would call the business.
    pub tourism: Option<String>,
    /// Notes.
    pub notes: Option<String>,
    /// Who made the record.
    pub created_user: Option<String>,
    /// When the record was made.
    pub created_date: Option<String>,
    /// Who last changed the record.
    pub last_edited_user: Option<String>,
    /// When the record was last changed.
    pub last_edited_date: Option<String>,
    /// The bit pattern of the first ordinate of the place.
    pub x_coordinate: u64,
    /// The bit pattern of the second ordinate of the place.
    pub y_coordinate: u64,
}

/// What a business with its industry holds.
pub struct BusinessInfoView {
    pub company_name: Seq<char>,
    pub contact_name: Option<Seq<char>>,
    pub dba: Option<Seq<char>>,
    pub street_address_label: Seq<char>,
    pub license: Seq<char>,
    pub industry_code: i32,
    pub industry_name: Seq<char>,
    pub sector_code: i32,
    pub sector_name: Option<Seq<char>>,
    pub subsector_code: i32,
    pub subsector_name: Option<Seq<char>>,
    pub tourism: Option<Seq<char>>,
    pub notes: Option<Seq<char>>,
    pub created_user: Option<Seq<char>>,
    pub created_date: Option<Seq<char>>,
    pub last_edited_user: Option<Seq<char>>,
    pub last_edited_date: Option<Seq<char>>,
    pub x_coordinate: u64,
    pub y_coordinate: u64,
}

impl View for BusinessInfo {
    type V = BusinessInfoView;

    open spec fn view(&self) -> BusinessInfoView {
        BusinessInfoView {
            company_name: self.company_name@,
            contact_name: opt_text(self.contact_name),
            dba: opt_text(self.dba),
            street_address_label: self.street_address_label@,
            license: self.license@,
            industry_code: self.industry_code,
            industry_name: self.industry_name@,
            sector_code: self.sector_code,
            sector_name: opt_text(self.sector_name),
            subsector_code: self.subsector_code,
            subsector_name: opt_text(self.subsector_name),
            tourism: opt_text(self.tourism),
            notes: opt_text(self.notes),
            created_user: opt_text(self.created_user),
            created_date: opt_text(self.created_date),
            last_edited_user: opt_text(self.last_edited_user),
            last_edited_date: opt_text(self.last_edited_date),
            x_coordinate: self.x_coordinate,
            y_coordinate: self.y_coordinate,
        }
    }
}

impl Clone for BusinessInfo {
    fn clone(&self) -> (r: Self)
        ensures
            r@ == self@,
    {
        BusinessInfo {
            company_name: self.company_name.clone(),
            contact_name: clone_opt(&self.contact_name),
            dba: clone_opt(&self.dba),
            street_address_label: self.street_address_label.clone(),
            license: self.license.clone(),
            industry_code: self.industry_code,
            industry_name: self.industry_name.clone(),
            sector_code: self.sector_code,
            sector_name: clone_opt(&self.sector_name),
            subsector_code: self.subsector_code,
            subsector_name: clone_opt(&self.subsector_name),
            tourism: clone_opt(&self.tourism),
            notes: clone_opt(&self.notes),
            created_user: clone_opt(&self.created_user),
            created_date: clone_opt(&self.created_date),
            last_edited_user: clone_opt(&self.last_edited_user),
            last_edited_date: clone_opt(&self.last_edited_date),
            x_coordinate: self.x_coordinate,
            y_coordinate: self.y_coordinate,
        }
    }
}

/// The businesses, each with its industry.
#[derive(Debug, PartialEq)]
pub struct BusinessesInfo(pub Vec<BusinessInfo>);

impl View for BusinessesInfo {
    type V = Seq<BusinessInfoView>;

    open spec fn view(&self) -> Seq<BusinessInfoView> {
        Seq::new(self.0@.len(), |i: int| self.0@[i]@)
    }
}

impl Clone for BusinessesInfo {
    fn clone(&self) -> (r: Self)
        ensures
            r@ == self@,
    {
        let mut items: Vec<BusinessInfo> = Vec::new();
        let mut i: usize = 0;
        while i < self.0.len()
            invariant
                i <= self.0.len(),
                items@.len() == i,
                forall|k: int| 0 <= k < i ==> (#[trigger] items@[k])@ == self.0@[k]@,
            decreases self.0.len() - i,
        {
            items.push(self.0[i].clone());
            i = i + 1;
        }
        let r = BusinessesInfo(items);
        assert(r@ =~= self@);
        r
    }
}

impl BusinessesInfo {
    /// The list of the given businesses.
    pub fn new(items: Vec<BusinessInfo>) -> (r: Self)
        ensures
            r.0 == items,
    {
        BusinessesInfo(items)
    }

    /// How many businesses there are.
    pub fn len(&self) -> (r: usize)
        ensures
            r == self@.len(),
    {
        self.0.len()
    }
}

/// The place of the first license of a list with the given number, or the
/// length of the list where none has it.
pub open spec fn first_license(licenses: Seq<ActiveLicenseView>, license: Seq<char>) -> int
    decreases licenses.len(),
{
    if licenses.len() == 0 {
        0
    } else if licenses.first().license == license {
        0
    } else {
        1 + first_license(licenses.drop_first(), license)
    }
}

/// Where no license before a place has the number, the first that has it is
/// not before that place.
pub proof fn lemma_first_license(licenses: Seq<ActiveLicenseView>, license: Seq<char>, i: int)
    requires
        0 <= i <= licenses.len(),
        forall|k: int| 0 <= k < i ==> licenses[k].license != license,
    ensures
        0 <= first_license(licenses, license) <= licenses.len(),
        i < licenses.len() && licenses[i].license == license ==> first_license(licenses, license)
            == i,
        i == licenses.len() ==> first_license(licenses, license) == i,
    decreases licenses.len(),
{
    if licenses.len() > 0 {
        let rest = licenses.drop_first();
        if i > 0 {
            assert(licenses[0].license != license);
            assert forall|k: int| 0 <= k < i - 1 implies rest[k].license != license by {
                assert(rest[k] == licenses[k + 1]);
            }
            lemma_first_license(rest, license, i - 1);
            if i < licenses.len() {
                assert(rest[i - 1] == licenses[i]);
            }
        } else {
            lemma_first_license(rest, license, 0);
        }
    }
}

/// A business with the industry of the given code.
pub open spec fn business_info(business: BusinessView, industry: IndustryCodeView) -> BusinessInfoView {
    BusinessInfoView {
        company_name: business.company_name,
        contact_name: business.contact_name,
        dba: business.dba,
        street_address_label: business.street_address_label,
        license: business.license,
        industry_code: industry.code,
        industry_name: industry.name,
        sector_code: leading(industry.code as int, 100) as i32,
        sector_name: sector_name(leading(industry.code as int, 100)),
        subsector_code: leading(industry.code as int, 10000) as i32,
        subsector_name: subsector_name(leading(industry.code as int, 10000)),
        tourism: tourism_by_code(
            industry.code as int,
            tourism_by_subsector(leading(industry.code as int, 10000)),
        ),
        notes: business.notes,
        created_user: business.created_user,
        created_date: business.created_date,
        last_edited_user: business.last_edited_user,
        last_edited_date: business.last_edited_date,
        x_coordinate: business.x_coordinate,
        y_coordinate: business.y_coordinate,
    }
}

/// Whether the industry of a code can be told: the code has four digits at
/// least and stands in the list.
pub open spec fn is_listed(code: i32, codes: Seq<IndustryCodeView>) -> bool {
    code >= 1000 && first_code(codes, code) < codes.len()
}

impl Business {
    /// The code of the industry.
    pub fn code(&self) -> (r: i32)
        ensures
            r == self.code,
    {
        self.code
    }
}

impl Businesses {
    /// The businesses of the list.
    pub fn records_ref(&self) -> (r: &Vec<Business>)
        ensures
            *r == self.0,
    {
        &self.0
    }
}

impl ActiveLicense {
    /// The number of the license.
    pub fn license(&self) -> (r: String)
        ensures
            r@ == self.license@,
    {
        self.license.clone()
    }

    /// The number of the license.
    pub fn license_ref(&self) -> (r: &String)
        ensures
            *r == self.license,
    {
        &self.license
    }
}

impl ActiveLicenses {
    /// The licenses of the list.
    pub fn records_ref(&self) -> (r: &Vec<ActiveLicense>)
        ensures
            *r == self.0,
    {
        &self.0
    }

    /// The code of the industry of the first license with the given number.
    /// There must be one.
    pub fn code(&self, license: &str) -> (r: i32)
        requires
            first_license(self@, license@) < self@.len(),
        ensures
            r == self@[first_license(self@, license@)].industry_code,
    {
        let wanted = license.to_owned();
        let mut i: usize = 0;
        while i < self.0.len()
            invariant
                i <= self.0.len(),
                wanted@ == license@,
                first_license(self@, license@) < self@.len(),
                forall|k: int| 0 <= k < i ==> self@[k].license != license@,
            decreases self.0.len() - i,
        {
            if self.0[i].license == wanted {
                proof {
                    lemma_first_license(self@, license@, i as int);
                }
                return self.0[i].industry_code;
            }
            i = i + 1;
        }
        proof {
            lemma_first_license(self@, license@, i as int);
        }
        0
    }
}

fn info(business: &Business, industry: &IndustryCode) -> (r: BusinessInfo)
    requires
        industry.code >= 1000,
    ensures
        r@ == business_info(business@, industry@),
{
    BusinessInfo {
        company_name: business.company_name.clone(),
        contact_name: clone_opt(&business.contact_name),
        dba: clone_opt(&business.dba),
        street_address_label: business.street_address_label.clone(),
        license: business.license.clone(),
        industry_code: industry.code,
        industry_name: industry.name.clone(),
        sector_code: industry.sector_code(),
        sector_name: industry.sector(),
        subsector_code: industry.subsector_code(),
        subsector_name: industry.subsector(),
        tourism: industry.tourism(),
        notes: clone_opt(&business.notes),
        created_user: clone_opt(&business.created_user),
        created_date: clone_opt(&business.created_date),
        last_edited_user: clone_opt(&business.last_edited_user),
        last_edited_date: clone_opt(&business.last_edited_date),
        x_coordinate: business.x_coordinate,
        y_coordinate: business.y_coordinate,
    }
}

impl BusinessInfo {
    /// The business with the industry of its license. The license must be
    /// among the licenses, and its industry among the codes, with a code of
    /// four digits at least.
    pub fn from_license(business: &Business, licenses: &ActiveLicenses, codes: &IndustryCodes) -> (r:
        Self)
        requires
            first_license(licenses@, business@.license) < licenses@.len(),
            is_listed(
                licenses@[first_license(licenses@, business@.license)].industry_code,
                codes@,
            ),
        ensures
            r@ == business_info(
                business@,
                codes@[first_code(
                    codes@,
                    licenses@[first_license(licenses@, business@.license)].industry_code,
                )],
            ),
    {
        let industry_code = licenses.code(business.license.as_str());
        let industry = IndustryCode::from_code(industry_code, codes);
        info(business, &industry)
    }

    /// The business with the industry of its own code, which must be among
    /// the codes and have four digits at least.
    pub fn from_codes(business: &Business, codes: &IndustryCodes) -> (r: Self)
        requires
            is_listed(business.code, codes@),
        ensures
            r@ == business_info(business@, codes@[first_code(codes@, business.code)]),
    {
        let industry = IndustryCode::from_code(business.code(), codes);
        info(business, &industry)
    }
}

impl BusinessesInfo {
    /// The businesses, each with the industry of its license. What
    /// [`BusinessInfo::from_license`] asks of one business is asked of each.
    pub fn from_license(businesses: &Businesses, licenses: &ActiveLicenses, codes: &IndustryCodes) -> (r:
        Self)
        requires
            forall|i: int|
                0 <= i < businesses@.len() ==> first_license(
                    licenses@,
                    (#[trigger] businesses@[i]).license,
                ) < licenses@.len() && is_listed(
                    licenses@[first_license(licenses@, businesses@[i].license)].industry_code,
                    codes@,
                ),
        ensures
            r@.len() == businesses@.len(),
            forall|i: int|
                0 <= i < r@.len() ==> #[trigger] r@[i] == business_info(
                    businesses@[i],
                    codes@[first_code(
                        codes@,
                        licenses@[first_license(licenses@, businesses@[i].license)].industry_code,
                    )],
                ),
    {
        let mut records: Vec<BusinessInfo> = Vec::new();
        let mut i: usize = 0;
        while i < businesses.0.len()
            invariant
                i <= businesses.0.len(),
                records@.len() == i,
                forall|k: int|
                    0 <= k < businesses@.len() ==> first_license(
                        licenses@,
                        (#[trigger] businesses@[k]).license,
                    ) < licenses@.len() && is_listed(
                        licenses@[first_license(licenses@, businesses@[k].license)].industry_code,
                        codes@,
                    ),
                forall|k: int|
                    0 <= k < i ==> (#[trigger] records@[k])@ == business_info(
                        businesses@[k],
                        codes@[first_code(
                            codes@,
                            licenses@[first_license(
                                licenses@,
                                businesses@[k].license,
                            )].industry_code,
                        )],
                    ),
            decreases businesses.0.len() - i,
        {
            assert(businesses@[i as int].license == businesses.0[i as int]@.license);
            records.push(BusinessInfo::from_license(&businesses.0[i], licenses, codes));
            i = i + 1;
        }
        BusinessesInfo(records)
    }

    /// The businesses of the list.
    pub fn records_ref(&self) -> (r: &Vec<BusinessInfo>)
        ensures
            *r == self.0,
    {
        &self.0
    }

    /// The businesses of the list, to be changed.
    pub fn records_mut(&mut self) -> (r: &mut Vec<BusinessInfo>)
        ensures
            *r == old(self).0,
            final(self).0 == *final(r),
    {
        &mut self.0
    }
}

/// An entry of a mailing list, with every list written out as one text.
#[derive(Debug, PartialEq)]
pub struct MailingListExportItem {
    /// The name of the owner.
    pub name: String,
    /// How many properties the owner has.
    pub properties: usize,
    /// Where the properties lie.
    pub situs_addresses: String,
    /// Where mail for the owner goes.
    pub mailing_address: String,
    /// The city, the state and the postal code that go with it.
    pub mailing_csz: String,
    /// Others who get their mail there.
    pub associated_names: String,
    /// The tax lots of the properties.
    pub parcels: String,
}

/// What an entry of a mailing list, written out holds.
pub struct MailingListExportItemView {
    pub name: Seq<char>,
    pub properties: usize,
    pub situs_addresses: Seq<char>,
    pub mailing_address: Seq<char>,
    pub mailing_csz: Seq<char>,
    pub associated_names: Seq<char>,
    pub parcels: Seq<char>,
}

impl View for MailingListExportItem {
    type V = MailingListExportItemView;

    open spec fn view(&self) -> MailingListExportItemView {
        MailingListExportItemView {
            name: self.name@,
            properties: self.properties,
            situs_addresses: self.situs_addresses@,
            mailing_address: self.mailing_address@,
            mailing_csz: self.mailing_csz@,
            associated_names: self.associated_names@,
            parcels: self.parcels@,
        }
    }
}

impl Clone for MailingListExportItem {
    fn clone(&self) -> (r: Self)
        ensures
            r@ == self@,
    {
        MailingListExportItem {
            name: self.name.clone(),
            properties: self.properties,
            situs_addresses: self.situs_addresses.clone(),
            mailing_address: self.mailing_address.clone(),
            mailing_csz: self.mailing_csz.clone(),
            associated_names: self.associated_names.clone(),
            parcels: self.parcels.clone(),
        }
    }
}

/// A list of texts that is written with commas between them.
#[derive(Debug, PartialEq, Eq)]
pub struct FlatList(pub Vec<String>);

/// A mailing list for export.
#[derive(Debug, Clone, PartialEq)]
pub struct MailingListExport {
    records: Vec<MailingListExportItem>,
}

/// The texts with a comma and a blank between them.
pub open spec fn joined(items: Seq<Seq<char>>) -> Seq<char>
    decreases items.len(),
{
    if items.len() == 0 {
        Seq::empty()
    } else if items.len() == 1 {
        items[0]
    } else {
        joined(items.drop_last()) + ", "@ + items.last()
    }
}

/// The entries in the order of their numbers of properties, least first;
/// entries with the same number stay as they were.
pub uninterp spec fn by_properties(records: Seq<MailingListExportItemView>) -> Seq<
    MailingListExportItemView,
>;

/// The entries in the order of their names; entries with the same name stay
/// as they were.
pub uninterp spec fn by_name(records: Seq<MailingListExportItemView>) -> Seq<
    MailingListExportItemView,
>;

/// The views of entries.
pub open spec fn entries(records: Seq<MailingListExportItem>) -> Seq<MailingListExportItemView> {
    Seq::new(records.len(), |i: int| records[i]@)
}

/// Calls `sort_by_key` with the number of properties as the key: the same
/// entries, each as often as before, with the numbers ascending.
#[verifier::external_body]
fn sort_by_properties(records: &mut Vec<MailingListExportItem>)
    ensures
        entries(final(records)@) == by_properties(entries(old(records)@)),
        entries(final(records)@).to_multiset() == entries(old(records)@).to_multiset(),
        forall|i: int, j: int|
            0 <= i < j < final(records)@.len() ==> (#[trigger] final(records)@[i]).properties
                <= (#[trigger] final(records)@[j]).properties,
{
    records.sort_by_key(|v| v.properties)
}

/// Calls `sort_by_key` with the name as the key: the same entries, each as
/// often as before, with the names ascending.
#[verifier::external_body]
fn sort_by_name(records: &mut Vec<MailingListExportItem>)
    ensures
        entries(final(records)@) == by_name(entries(old(records)@)),
        entries(final(records)@).to_multiset() == entries(old(records)@).to_multiset(),
        forall|i: int, j: int|
            0 <= i < j < final(records)@.len() ==> text_le(
                (#[trigger] final(records)@[i]).name@,
                (#[trigger] final(records)@[j]).name@,
            ),
{
    records.sort_by_key(|v| v.name.clone())
}

impl FlatList {
    /// The list of the given texts.
    pub fn new(list: Vec<String>) -> (r: Self)
        ensures
            r.0 == list,
    {
        FlatList(list)
    }

    /// The texts with a comma and a blank between them.
    pub fn to_string(&self) -> (r: String)
        ensures
            r@ == joined(texts(self.0@)),
    {
        let mut flat = String::new();
        let mut i: usize = 0;
        while i < self.0.len()
            invariant
                i <= self.0.len(),
                flat@ == joined(texts(self.0@).take(i as int)),
            decreases self.0.len() - i,
        {
            assert(texts(self.0@).take(i + 1).drop_last() =~= texts(self.0@).take(i as int));
            assert(texts(self.0@).take(i + 1).last() == self.0@[i as int]@);
            if i > 0 {
                flat.append(", ");
            }
            flat.append(self.0[i].as_str());
            assert(flat@ =~= joined(texts(self.0@).take(i + 1)));
            i = i + 1;
        }
        assert(texts(self.0@).take(i as int) =~= texts(self.0@));
        flat
    }
}

impl MailingListExport {
    /// The mailing list with the given entries.
    pub fn new(records: Vec<MailingListExportItem>) -> (r: Self)
        ensures
            r.records_view() == entries(records@),
    {
        MailingListExport { records }
    }

    /// The entries of the list.
    pub closed spec fn records_view(&self) -> Seq<MailingListExportItemView> {
        entries(self.records@)
    }

    /// The entries of the list.
    pub fn records_ref(&self) -> (r: &Vec<MailingListExportItem>)
        ensures
            entries(r@) == self.records_view(),
    {
        &self.records
    }

    /// The entries of the list, to be changed.
    pub fn records_mut(&mut self) -> (r: &mut Vec<MailingListExportItem>)
        ensures
            entries(r@) == old(self).records_view(),
            final(self).records_view() == entries(final(r)@),
    {
        &mut self.records
    }

    /// Puts the entries in order: by their numbers of properties under the
    /// key `properties`, by their names under the key `name`. Under another
    /// key nothing is changed.
    pub fn sort_by_key(&mut self, key: &str)
        ensures
            final(self).records_view() == if key@ == "properties"@ {
                by_properties(old(self).records_view())
            } else if key@ == "name"@ {
                by_name(old(self).records_view())
            } else {
                old(self).records_view()
            },
            final(self).records_view().to_multiset() == old(self).records_view().to_multiset(),
    {
        if same(key, "properties") {
            sort_by_properties(&mut self.records);
        } else if same(key, "name") {
            sort_by_name(&mut self.records);
        }
    }
}

/// An entry of a mailing list: an owner, where the mail goes, and what the
/// owner has.
#[derive(Debug, PartialEq)]
pub struct MailingListItem {
    /// The name of the owner.
    pub name: String,
    /// How many properties the owner has.
    pub properties: usize,
    /// Where the properties lie.
    pub situs_addresses: FlatList,
    /// Where mail for the owner goes.
    pub mailing_address: FlatList,
    /// The city, the state and the postal code that go with it.
    pub mailing_csz: FlatList,
    /// Others who get their mail there.
    pub associated_names: FlatList,
    /// The tax lots of the properties.
    pub parcels: FlatList,
}

/// What an entry of a mailing list holds.
pub struct MailingListItemView {
    pub name: Seq<char>,
    pub properties: usize,
    pub situs_addresses: Seq<Seq<char>>,
    pub mailing_address: Seq<Seq<char>>,
    pub mailing_csz: Seq<Seq<char>>,
    pub associated_names: Seq<Seq<char>>,
    pub parcels: Seq<Seq<char>>,
}

impl View for MailingListItem {
    type V = MailingListItemView;

    open spec fn view(&self) -> MailingListItemView {
        MailingListItemView {
            name: self.name@,
            properties: self.properties,
            situs_addresses: self.situs_addresses@,
            mailing_address: self.mailing_address@,
            mailing_csz: self.mailing_csz@,
            associated_names: self.associated_names@,
            parcels: self.parcels@,
        }
    }
}

impl Clone for MailingListItem {
    fn clone(&self) -> (r: Self)
        ensures
            r@ == self@,
    {
        MailingListItem {
            name: self.name.clone(),
            properties: self.properties,
            situs_addresses: self.situs_addresses.clone(),
            mailing_address: self.mailing_address.clone(),
            mailing_csz: self.mailing_csz.clone(),
            associated_names: self.associated_names.clone(),
            parcels: self.parcels.clone(),
        }
    }
}

/// A mailing list.
#[derive(Debug, PartialEq)]
pub struct MailingList(pub Vec<MailingListItem>);

impl View for MailingList {
    type V = Seq<MailingListItemView>;

    open spec fn view(&self) -> Seq<MailingListItemView> {
        Seq::new(self.0@.len(), |i: int| self.0@[i]@)
    }
}

impl Clone for MailingList {
    fn clone(&self) -> (r: Self)
        ensures
            r@ == self@,
    {
        let mut items: Vec<MailingListItem> = Vec::new();
        let mut i: usize = 0;
        while i < self.0.len()
            invariant
                i <= self.0.len(),
                items@.len() == i,
                forall|k: int| 0 <= k < i ==> (#[trigger] items@[k])@ == self.0@[k]@,
            decreases self.0.len() - i,
        {
            items.push(self.0[i].clone());
            i = i + 1;
        }
        let r = MailingList(items);
        assert(r@ =~= self@);
        r
    }
}

impl MailingList {
    /// The list of the given entries.
    pub fn new(items: Vec<MailingListItem>) -> (r: Self)
        ensures
            r.0 == items,
    {
        MailingList(items)
    }

    /// How many entries there are.
    pub fn len(&self) -> (r: usize)
        ensures
            r == self@.len(),
    {
        self.0.len()
    }
}

impl View for FlatList {
    type V = Seq<Seq<char>>;

    open spec fn view(&self) -> Seq<Seq<char>> {
        texts(self.0@)
    }
}

/// The names but for one, in their order.
pub open spec fn without(names: Seq<Seq<char>>, name: Seq<char>) -> Seq<Seq<char>>
    decreases names.len(),
{
    if names.len() == 0 {
        Seq::empty()
    } else if names.last() == name {
        without(names.drop_last(), name)
    } else {
        without(names.drop_last(), name).push(names.last())
    }
}

/// The entry of a mailing list, written out.
pub open spec fn written(item: MailingListItemView) -> MailingListExportItemView {
    MailingListExportItemView {
        name: item.name,
        properties: item.properties,
        situs_addresses: joined(item.situs_addresses),
        mailing_address: joined(item.mailing_address),
        mailing_csz: joined(item.mailing_csz),
        associated_names: joined(item.associated_names),
        parcels: joined(item.parcels),
    }
}

fn clone_texts(list: &Vec<String>) -> (r: Vec<String>)
    ensures
        texts(r@) == texts(list@),
{
    let mut r: Vec<String> = Vec::new();
    let mut i: usize = 0;
    while i < list.len()
        invariant
            i <= list.len(),
            r@.len() == i,
            forall|k: int| 0 <= k < i ==> (#[trigger] r@[k])@ == list@[k]@,
        decreases list.len() - i,
    {
        r.push(list[i].clone());
        i = i + 1;
    }
    assert(texts(r@) =~= texts(list@));
    r
}

impl Clone for FlatList {
    fn clone(&self) -> (r: Self)
        ensures
            r@ == self@,
    {
        FlatList(clone_texts(&self.0))
    }
}

fn without_name(names: &Vec<String>, name: &String) -> (r: Vec<String>)
    ensures
        texts(r@) == without(texts(names@), name@),
{
    let mut r: Vec<String> = Vec::new();
    let mut i: usize = 0;
    while i < names.len()
        invariant
            i <= names.len(),
            texts(r@) == without(texts(names@).take(i as int), name@),
        decreases names.len() - i,
    {
        let ghost before = texts(r@);
        assert(texts(names@).take(i + 1).drop_last() =~= texts(names@).take(i as int));
        assert(texts(names@).take(i + 1).last() == names@[i as int]@);
        if names[i] != *name {
            r.push(names[i].clone());
            assert(texts(r@) =~= before.push(names@[i as int]@));
        }
        i = i + 1;
    }
    assert(texts(names@).take(i as int) =~= texts(names@));
    r
}

/// What is among the first texts of a sequence and one more is among the
/// first or is that one.
pub proof fn lemma_take_contains(s: Seq<Seq<char>>, i: int)
    requires
        0 <= i < s.len(),
    ensures
        forall|x: Seq<char>|
            #![trigger s.take(i + 1).contains(x)]
            s.take(i + 1).contains(x) <==> s.take(i).contains(x) || x == s[i],
{
    assert(s.take(i + 1) =~= s.take(i).push(s[i]));
    assert forall|x: Seq<char>| s.take(i + 1).contains(x) <==> s.take(i).contains(x) || x
        == s[i] by {
        if s.take(i).contains(x) {
            let k = choose|k: int| 0 <= k < s.take(i).len() && s.take(i)[k] == x;
            assert(s.take(i + 1)[k] == x);
        }
        if x == s[i] {
            assert(s.take(i + 1)[i] == x);
        }
    }
}

/// Notes a name as done, unless it is noted already.
pub fn note(done: &mut Vec<String>, name: &String)
    ensures
        forall|x: Seq<char>|
            #![trigger texts(final(done)@).contains(x)]
            texts(final(done)@).contains(x) <==> texts(old(done)@).contains(x) || x == name@,
{
    if !contains_text(done, name) {
        let ghost before = texts(done@);
        done.push(name.clone());
        assert(texts(done@) =~= before.push(name@));
        assert forall|x: Seq<char>| texts(done@).contains(x) <==> before.contains(x) || x
            == name@ by {
            if before.contains(x) {
                let k = choose|k: int| 0 <= k < before.len() && before[k] == x;
                assert(texts(done@)[k] == x);
            }
            if x == name@ {
                assert(texts(done@)[before.len() as int] == x);
            }
        }
    }
}

impl MailingListExportItem {
    /// The entry of a mailing list, written out.
    pub fn from(item: &MailingListItem) -> (r: Self)
        ensures
            r@ == written(item@),
    {
        MailingListExportItem {
            name: item.name.clone(),
            properties: item.properties,
            situs_addresses: item.situs_addresses.to_string(),
            mailing_address: item.mailing_address.to_string(),
            mailing_csz: item.mailing_csz.to_string(),
            associated_names: item.associated_names.to_string(),
            parcels: item.parcels.to_string(),
        }
    }
}

impl MailingListExport {
    /// The mailing list with every entry written out.
    pub fn from(items: &MailingList) -> (r: Self)
        ensures
            r.records_view() == Seq::new(items@.len(), |i: int| written(items@[i])),
    {
        let mut records: Vec<MailingListExportItem> = Vec::new();
        let mut i: usize = 0;
        while i < items.0.len()
            invariant
                i <= items.0.len(),
                records@.len() == i,
                forall|k: int| 0 <= k < i ==> (#[trigger] records@[k])@ == written(items@[k]),
            decreases items.0.len() - i,
        {
            records.push(MailingListExportItem::from(&items.0[i]));
            i = i + 1;
        }
        let r = MailingListExport { records };
        assert(r.records_view() =~= Seq::new(items@.len(), |i: int| written(items@[i])));
        r
    }
}

impl MailingList {
    /// The entries of the list.
    pub fn records_ref(&self) -> (r: &Vec<MailingListItem>)
        ensures
            *r == self.0,
    {
        &self.0
    }
}

/// The city, state and postal code of the tax lots whose address is among
/// the given, in the order of the tax lots.
pub open spec fn city_csz(lots: Seq<CityTaxlotView>, addresses: Seq<Seq<char>>) -> Seq<Seq<char>>
    decreases lots.len(),
{
    if lots.len() == 0 {
        Seq::empty()
    } else if addresses.contains(lots.last().address) {
        city_csz(lots.drop_last(), addresses).push(lots.last().csz)
    } else {
        city_csz(lots.drop_last(), addresses)
    }
}

/// Where the tax lots with the given address lie, in the order of the tax
/// lots.
pub open spec fn city_situs(lots: Seq<CityTaxlotView>, address: Seq<char>) -> Seq<Seq<char>>
    decreases lots.len(),
{
    if lots.len() == 0 {
        Seq::empty()
    } else if lots.last().address == address {
        city_situs(lots.drop_last(), address).push(lots.last().situs)
    } else {
        city_situs(lots.drop_last(), address)
    }
}

/// The map numbers of the tax lots that lie at one of the given places, in
/// the order of the tax lots.
pub open spec fn city_parcels(lots: Seq<CityTaxlotView>, situs: Seq<Seq<char>>) -> Seq<Seq<char>>
    decreases lots.len(),
{
    if lots.len() == 0 {
        Seq::empty()
    } else if situs.contains(lots.last().situs) {
        city_parcels(lots.drop_last(), situs).push(lots.last().map_number)
    } else {
        city_parcels(lots.drop_last(), situs)
    }
}

/// Whether an entry is that of an owner: the mail goes to the addresses of
/// the owner's tax lots, in ascending order; the first of them is the one the
/// rest is told of: who else gets mail there, which tax lots have it as
/// their address, where they lie and what their numbers are.
pub open spec fn is_city_entry(item: MailingListItemView, name: Seq<char>, lots: Seq<CityTaxlotView>) -> bool {
    &&& item.name == name
    &&& item.mailing_address.len() > 0
    &&& texts_ascend(item.mailing_address)
    &&& forall|address: Seq<char>|
        item.mailing_address.contains(address) <==> city_taxlot::is_address_of(lots, address, name)
    &&& texts_ascend(item.mailing_csz)
    &&& same_values(item.mailing_csz, city_csz(lots, item.mailing_address))
    &&& exists|names: Seq<Seq<char>>|
        texts_ascend(names) && (forall|other: Seq<char>|
            names.contains(other) <==> city_taxlot::is_address_of(
                lots,
                item.mailing_address[0],
                other,
            )) && #[trigger] without(names, name) == item.associated_names
    &&& item.situs_addresses == city_situs(lots, item.mailing_address[0])
    &&& item.properties == item.situs_addresses.len()
    &&& item.parcels == city_parcels(lots, item.situs_addresses)
}

impl MailingListItem {
    /// The entry of an owner, from the tax lots. The owner is noted as done,
    /// and so is everyone who gets mail at the owner's first address. An
    /// owner without a tax lot has no entry.
    pub fn from_city_parcels(name: &str, parcels: &CityTaxlots, done: &mut Vec<String>) -> (r: Result<
        Self,
        Error,
    >)
        ensures
            match r {
                Ok(item) => is_city_entry(item@, name@, parcels@) && forall|x: Seq<char>|
                    texts(final(done)@).contains(x) <==> texts(old(done)@).contains(x) || x
                        == name@ || city_taxlot::is_address_of(parcels@, item@.mailing_address[0], x),
                Err(e) => e == Error::UnknownError && (forall|address: Seq<char>|
                    !city_taxlot::is_address_of(parcels@, address, name@)) && forall|x: Seq<char>|
                    texts(final(done)@).contains(x) <==> texts(old(done)@).contains(x) || x
                        == name@,
            },
    {
        let owner = name.to_owned();
        note(done, &owner);
        let addr = parcels.associated_addresses(name);
        if addr.len() == 0 {
            proof {
                assert forall|address: Seq<char>| !city_taxlot::is_address_of(
                    parcels@,
                    address,
                    name@,
                ) by {
                    if city_taxlot::is_address_of(parcels@, address, name@) {
                        assert(texts(addr@).contains(address));
                    }
                }
            }
            return Err(Error::UnknownError);
        }
        let mut csz: Vec<String> = Vec::new();
        let mut i: usize = 0;
        while i < parcels.0.len()
            invariant
                i <= parcels.0.len(),
                texts(csz@) == city_csz(parcels@.take(i as int), texts(addr@)),
            decreases parcels.0.len() - i,
        {
            let ghost before = texts(csz@);
            assert(parcels@.take(i + 1).drop_last() =~= parcels@.take(i as int));
            if contains_text(&addr, parcels.0[i].address()) {
                csz.push(parcels.0[i].csz().clone());
                assert(texts(csz@) =~= before.push(parcels@[i as int].csz));
            }
            i = i + 1;
        }
        assert(parcels@.take(i as int) =~= parcels@);
        let csz = sorted_texts(csz);
        let mailing = &addr[0];
        assert(texts(addr@)[0] == mailing@);
        let names = parcels.associated_names(mailing.as_str());
        let ghost noted = texts(done@);
        let mut i: usize = 0;
        while i < names.len()
            invariant
                i <= names.len(),
                forall|x: Seq<char>|
                    #![trigger texts(done@).contains(x)]
                    texts(done@).contains(x) <==> noted.contains(x) || texts(names@).take(
                        i as int,
                    ).contains(x),
            decreases names.len() - i,
        {
            let ghost before = texts(done@);
            note(done, &names[i]);
            proof {
                lemma_take_contains(texts(names@), i as int);
                assert(texts(names@)[i as int] == names@[i as int]@);
                assert forall|x: Seq<char>|
                    #![trigger texts(done@).contains(x)]
                    texts(done@).contains(x) <==> noted.contains(x) || texts(names@).take(
                        i + 1,
                    ).contains(x) by {
                    assert(texts(done@).contains(x) <==> before.contains(x) || x
                        == names@[i as int]@);
                    assert(before.contains(x) <==> noted.contains(x) || texts(names@).take(
                        i as int,
                    ).contains(x));
                    assert(texts(names@).take(i + 1).contains(x) <==> texts(names@).take(
                        i as int,
                    ).contains(x) || x == texts(names@)[i as int]);
                }
            }
            i = i + 1;
        }
        assert(texts(names@).take(i as int) =~= texts(names@));
        let others = without_name(&names, &owner);
        let mut situs: Vec<String> = Vec::new();
        let mut i: usize = 0;
        while i < parcels.0.len()
            invariant
                i <= parcels.0.len(),
                texts(situs@) == city_situs(parcels@.take(i as int), mailing@),
            decreases parcels.0.len() - i,
        {
            let ghost before = texts(situs@);
            assert(parcels@.take(i + 1).drop_last() =~= parcels@.take(i as int));
            if *parcels.0[i].address() == *mailing {
                situs.push(parcels.0[i].situs().clone());
                assert(texts(situs@) =~= before.push(parcels@[i as int].situs));
            }
            i = i + 1;
        }
        assert(parcels@.take(i as int) =~= parcels@);
        let mut tax_parcels: Vec<String> = Vec::new();
        let mut i: usize = 0;
        while i < parcels.0.len()
            invariant
                i <= parcels.0.len(),
                texts(tax_parcels@) == city_parcels(parcels@.take(i as int), texts(situs@)),
            decreases parcels.0.len() - i,
        {
            let ghost before = texts(tax_parcels@);
            assert(parcels@.take(i + 1).drop_last() =~= parcels@.take(i as int));
            if contains_text(&situs, parcels.0[i].situs()) {
                tax_parcels.push(parcels.0[i].map_number().clone());
                assert(texts(tax_parcels@) =~= before.push(parcels@[i as int].map_number));
            }
            i = i + 1;
        }
        assert(parcels@.take(i as int) =~= parcels@);
        let item = MailingListItem {
            name: owner,
            properties: situs.len(),
            situs_addresses: FlatList::new(situs),
            mailing_address: FlatList::new(addr),
            mailing_csz: FlatList::new(csz),
            associated_names: FlatList::new(others),
            parcels: FlatList::new(tax_parcels),
        };
        proof {
            assert(without(texts(names@), name@) == item@.associated_names);
            assert(item@.mailing_address[0] == mailing@);
            assert forall|x: Seq<char>|
                texts(done@).contains(x) <==> texts(old(done)@).contains(x) || x == name@
                    || city_taxlot::is_address_of(parcels@, item@.mailing_address[0], x) by {
                assert(texts(names@).contains(x) <==> city_taxlot::is_address_of(
                    parcels@,
                    mailing@,
                    x,
                ));
                assert(noted.contains(x) <==> texts(old(done)@).contains(x) || x == name@);
            }
        }
        Ok(item)
    }
}

/// Whether an entry takes care of a name: it is the entry of that name, or
/// mail for that name goes to the first address of the entry.
pub open spec fn city_covers(item: MailingListItemView, lots: Seq<CityTaxlotView>, name: Seq<char>) -> bool {
    item.name == name || (item.mailing_address.len() > 0 && city_taxlot::is_address_of(
        lots,
        item.mailing_address[0],
        name,
    ))
}

/// Whether one of the entries takes care of a name.
pub open spec fn city_covered(items: Seq<MailingListItemView>, lots: Seq<CityTaxlotView>, name: Seq<char>) -> bool {
    exists|k: int| 0 <= k < items.len() && city_covers(#[trigger] items[k], lots, name)
}

/// Whether a list is the mailing list of the tax lots: its entries are
/// entries of owners, with the names ascending; no entry is of a name that an
/// entry before it takes care of; and every owner has an entry or is taken
/// care of by the entry of a name before.
pub open spec fn is_city_list(items: Seq<MailingListItemView>, lots: Seq<CityTaxlotView>) -> bool {
    &&& forall|i: int|
        0 <= i < items.len() ==> is_city_entry(#[trigger] items[i], items[i].name, lots)
            && city_taxlot::owner_names_of(lots).contains(items[i].name)
    &&& forall|i: int, j: int|
        0 <= i < j < items.len() ==> text_lt((#[trigger] items[i]).name, (#[trigger] items[j]).name)
            && !city_covers(items[i], lots, items[j].name)
    &&& forall|name: Seq<char>|
        #![trigger city_taxlot::owner_names_of(lots).contains(name)]
        city_taxlot::owner_names_of(lots).contains(name) ==> city_cared_for(items, lots, name)
}

/// Whether a name is taken care of by its own entry or by the entry of a
/// name before it.
pub open spec fn city_cared_for(items: Seq<MailingListItemView>, lots: Seq<CityTaxlotView>, name: Seq<char>) -> bool {
    exists|k: int|
        0 <= k < items.len() && city_covers(#[trigger] items[k], lots, name) && (items[k].name
            == name || text_lt(items[k].name, name))
}

/// What holds of the entries while the names are gone through: so far the
/// first `i` names have been seen.
#[verifier::opaque]
pub open spec fn city_so_far(
    items: Seq<MailingListItemView>,
    lots: Seq<CityTaxlotView>,
    names: Seq<Seq<char>>,
    i: int,
    done: Seq<Seq<char>>,
) -> bool {
    &&& forall|k: int|
        0 <= k < items.len() ==> is_city_entry(#[trigger] items[k], items[k].name, lots)
            && city_taxlot::owner_names_of(lots).contains(items[k].name)
    &&& forall|k: int, j: int|
        0 <= k < j < items.len() ==> text_lt((#[trigger] items[k]).name, (#[trigger] items[j]).name)
            && !city_covers(items[k], lots, items[j].name)
    &&& forall|k: int|
        0 <= k < items.len() ==> exists|p: int|
            0 <= p < i && #[trigger] names[p] == (#[trigger] items[k]).name
    &&& forall|x: Seq<char>| #[trigger] done.contains(x) <==> city_covered(items, lots, x)
    &&& forall|p: int| 0 <= p < i ==> city_cared_for(items, lots, #[trigger] names[p])
}

/// Nothing has been seen yet.
proof fn lemma_city_start(lots: Seq<CityTaxlotView>, names: Seq<Seq<char>>)
    ensures
        city_so_far(Seq::empty(), lots, names, 0, Seq::empty()),
{
    reveal(city_so_far);
}

/// A name that is taken care of already is passed over.
proof fn lemma_city_skip(
    items: Seq<MailingListItemView>,
    lots: Seq<CityTaxlotView>,
    names: Seq<Seq<char>>,
    i: int,
    done: Seq<Seq<char>>,
)
    requires
        0 <= i < names.len(),
        texts_ascend(names),
        city_so_far(items, lots, names, i, done),
        done.contains(names[i]),
    ensures
        city_so_far(items, lots, names, i + 1, done),
{
    reveal(city_so_far);
    let name = names[i];
    assert(city_covered(items, lots, name));
    let k = choose|k: int| 0 <= k < items.len() && city_covers(#[trigger] items[k], lots, name);
    let p = choose|p: int| 0 <= p < i && #[trigger] names[p] == items[k].name;
    assert(text_lt(names[p], names[i]));
    assert(city_cared_for(items, lots, name));
    assert forall|k: int| 0 <= k < items.len() implies exists|p: int|
        0 <= p < i + 1 && #[trigger] names[p] == (#[trigger] items[k]).name by {
        let p = choose|p: int| 0 <= p < i && #[trigger] names[p] == items[k].name;
        assert(names[p] == items[k].name);
    }
}

/// A name that is not taken care of gets its entry.
proof fn lemma_city_push(
    items: Seq<MailingListItemView>,
    item: MailingListItemView,
    lots: Seq<CityTaxlotView>,
    names: Seq<Seq<char>>,
    i: int,
    done: Seq<Seq<char>>,
    after: Seq<Seq<char>>,
)
    requires
        0 <= i < names.len(),
        texts_ascend(names),
        city_so_far(items, lots, names, i, done),
        !done.contains(names[i]),
        is_city_entry(item, names[i], lots),
        city_taxlot::owner_names_of(lots).contains(names[i]),
        forall|x: Seq<char>|
            #[trigger] after.contains(x) <==> done.contains(x) || city_covers(item, lots, x),
    ensures
        city_so_far(items.push(item), lots, names, i + 1, after),
{
    reveal(city_so_far);
    let name = names[i];
    let more = items.push(item);
    assert(item.name == name);
    assert forall|k: int| 0 <= k < items.len() implies text_lt(
        (#[trigger] items[k]).name,
        name,
    ) && !city_covers(items[k], lots, name) by {
        let p = choose|p: int| 0 <= p < i && #[trigger] names[p] == items[k].name;
        assert(text_lt(names[p], names[i]));
        if city_covers(items[k], lots, name) {
            assert(city_covered(items, lots, name));
        }
    }
    assert forall|k: int| 0 <= k < more.len() implies is_city_entry(
        #[trigger] more[k],
        more[k].name,
        lots,
    ) && city_taxlot::owner_names_of(lots).contains(more[k].name) by {
        if k < items.len() {
            assert(more[k] == items[k]);
        }
    }
    assert forall|k: int, j: int| 0 <= k < j < more.len() implies text_lt(
        (#[trigger] more[k]).name,
        (#[trigger] more[j]).name,
    ) && !city_covers(more[k], lots, more[j].name) by {
        assert(more[k] == items[k]);
        if j < items.len() {
            assert(more[j] == items[j]);
        }
    }
    assert forall|k: int| 0 <= k < more.len() implies exists|p: int|
        0 <= p < i + 1 && #[trigger] names[p] == (#[trigger] more[k]).name by {
        if k < items.len() {
            assert(more[k] == items[k]);
            let p = choose|p: int| 0 <= p < i && #[trigger] names[p] == items[k].name;
            assert(names[p] == more[k].name);
        } else {
            assert(names[i] == more[k].name);
        }
    }
    assert forall|x: Seq<char>| #[trigger] after.contains(x) <==> city_covered(
        more,
        lots,
        x,
    ) by {
        assert(done.contains(x) <==> city_covered(items, lots, x));
        if city_covered(items, lots, x) {
            let k = choose|k: int| 0 <= k < items.len() && city_covers(#[trigger] items[k], lots, x);
            assert(more[k] == items[k]);
        }
        if city_covers(item, lots, x) {
            assert(more[items.len() as int] == item);
        }
        if city_covered(more, lots, x) {
            let k = choose|k: int| 0 <= k < more.len() && city_covers(#[trigger] more[k], lots, x);
            if k < items.len() {
                assert(more[k] == items[k]);
            }
        }
    }
    assert forall|p: int| 0 <= p < i + 1 implies city_cared_for(more, lots, #[trigger] names[p]) by {
        if p < i {
            assert(city_cared_for(items, lots, names[p]));
            let k = choose|k: int|
                0 <= k < items.len() && city_covers(#[trigger] items[k], lots, names[p]) && (
                items[k].name == names[p] || text_lt(items[k].name, names[p]));
            assert(more[k] == items[k]);
        } else {
            assert(more[items.len() as int] == item);
            assert(city_covers(more[items.len() as int], lots, names[p]));
        }
    }
}

/// When all names have been seen, the list is the mailing list.
proof fn lemma_city_end(
    items: Seq<MailingListItemView>,
    lots: Seq<CityTaxlotView>,
    names: Seq<Seq<char>>,
    done: Seq<Seq<char>>,
)
    requires
        city_so_far(items, lots, names, names.len() as int, done),
        same_values(names, city_taxlot::owner_names_of(lots)),
    ensures
        is_city_list(items, lots),
{
    reveal(city_so_far);
    assert forall|name: Seq<char>|
        #![trigger city_taxlot::owner_names_of(lots).contains(name)]
        city_taxlot::owner_names_of(lots).contains(name) implies city_cared_for(items, lots, name) by {
        assert(names.contains(name));
        let p = choose|p: int| 0 <= p < names.len() && names[p] == name;
        assert(city_cared_for(items, lots, names[p]));
    }
}

/// An owner has an address.
proof fn lemma_city_owner_has_address(lots: Seq<CityTaxlotView>, name: Seq<char>)
    requires
        city_taxlot::owner_names_of(lots).contains(name),
    ensures
        exists|address: Seq<char>| city_taxlot::is_address_of(lots, address, name),
{
    let k = choose|k: int|
        0 <= k < city_taxlot::owner_names_of(lots).len() && city_taxlot::owner_names_of(lots)[k] == name;
    assert(lots[k].owner_name == name);
    assert(city_taxlot::is_address_of(lots, lots[k].address, name));
}

impl MailingList {
    /// The mailing list of the owners of the tax lots: the owners are gone
    /// through in ascending order, and whoever gets mail at the first
    /// address of an owner before has no entry.
    pub fn try_from_city(parcels: &CityTaxlots) -> (r: Result<Self, Error>)
        ensures
            r is Ok,
            is_city_list(r->Ok_0@, parcels@),
    {
        let names = sorted_texts(parcels.owner_names());
        let mut records: Vec<MailingListItem> = Vec::new();
        let mut done: Vec<String> = Vec::new();
        let mut i: usize = 0;
        proof {
            lemma_city_start(parcels@, texts(names@));
            assert(MailingList(records)@ =~= Seq::<MailingListItemView>::empty());
            assert(texts(done@) =~= Seq::<Seq<char>>::empty());
        }
        while i < names.len()
            invariant
                i <= names.len(),
                texts_ascend(texts(names@)),
                same_values(texts(names@), city_taxlot::owner_names_of(parcels@)),
                city_so_far(
                    MailingList(records)@,
                    parcels@,
                    texts(names@),
                    i as int,
                    texts(done@),
                ),
            decreases names.len() - i,
        {
            let ghost before = MailingList(records)@;
            let ghost noted = texts(done@);
            assert(texts(names@)[i as int] == names@[i as int]@);
            if !contains_text(&done, &names[i]) {
                proof {
                    assert(texts(names@).contains(texts(names@)[i as int]));
                    lemma_city_owner_has_address(parcels@, names@[i as int]@);
                }
                match MailingListItem::from_city_parcels(names[i].as_str(), parcels, &mut done) {
                    Ok(item) => {
                        records.push(item);
                        proof {
                            assert(MailingList(records)@ =~= before.push(item@));
                            lemma_city_push(
                                before,
                                item@,
                                parcels@,
                                texts(names@),
                                i as int,
                                noted,
                                texts(done@),
                            );
                        }
                    },
                    Err(e) => {
                        assert(false);
                        return Err(e);
                    },
                }
            } else {
                proof {
                    lemma_city_skip(before, parcels@, texts(names@), i as int, noted);
                }
            }
            i = i + 1;
        }
        proof {
            lemma_city_end(MailingList(records)@, parcels@, texts(names@), texts(done@));
        }
        Ok(MailingList(records))
    }
}

/// The city, state and postal code of the tax lots whose address is among
/// the given, in the order of the tax lots.
pub open spec fn county_csz(lots: Seq<CountyTaxlotView>, addresses: Seq<Seq<char>>) -> Seq<Seq<char>>
    decreases lots.len(),
{
    if lots.len() == 0 {
        Seq::empty()
    } else if addresses.contains(lots.last().address) {
        county_csz(lots.drop_last(), addresses).push(lots.last().csz)
    } else {
        county_csz(lots.drop_last(), addresses)
    }
}

/// Where the tax lots with the given address lie, in the order of the tax
/// lots.
pub open spec fn county_situs(lots: Seq<CountyTaxlotView>, address: Seq<char>) -> Seq<Seq<char>>
    decreases lots.len(),
{
    if lots.len() == 0 {
        Seq::empty()
    } else if lots.last().address == address {
        county_situs(lots.drop_last(), address).push(lots.last().situs)
    } else {
        county_situs(lots.drop_last(), address)
    }
}

/// The map numbers of the tax lots that lie at one of the given places, in
/// the order of the tax lots.
pub open spec fn county_parcels(lots: Seq<CountyTaxlotView>, situs: Seq<Seq<char>>) -> Seq<Seq<char>>
    decreases lots.len(),
{
    if lots.len() == 0 {
        Seq::empty()
    } else if situs.contains(lots.last().situs) {
        county_parcels(lots.drop_last(), situs).push(lots.last().map_number)
    } else {
        county_parcels(lots.drop_last(), situs)
    }
}

/// Whether an entry is that of an owner: the mail goes to the addresses of
/// the owner's tax lots, in ascending order; the first of them is the one the
/// rest is told of: who else gets mail there, which tax lots have it as
/// their address, where they lie and what their numbers are.
pub open spec fn is_county_entry(item: MailingListItemView, name: Seq<char>, lots: Seq<CountyTaxlotView>) -> bool {
    &&& item.name == name
    &&& item.mailing_address.len() > 0
    &&& texts_ascend(item.mailing_address)
    &&& forall|address: Seq<char>|
        item.mailing_address.contains(address) <==> county_taxlot::is_address_of(lots, address, name)
    &&& texts_ascend(item.mailing_csz)
    &&& same_values(item.mailing_csz, county_csz(lots, item.mailing_address))
    &&& exists|names: Seq<Seq<char>>|
        texts_ascend(names) && (forall|other: Seq<char>|
            names.contains(other) <==> county_taxlot::is_address_of(
                lots,
                item.mailing_address[0],
                other,
            )) && #[trigger] without(names, name) == item.associated_names
    &&& item.situs_addresses == county_situs(lots, item.mailing_address[0])
    &&& item.properties == item.situs_addresses.len()
    &&& item.parcels == county_parcels(lots, item.situs_addresses)
}

impl MailingListItem {
    /// The entry of an owner, from the tax lots. The owner is noted as done,
    /// and so is everyone who gets mail at the owner's first address. An
    /// owner without a tax lot has no entry.
    pub fn from_county_parcels(name: &str, parcels: &CountyTaxlots, done: &mut Vec<String>) -> (r: Result<
        Self,
        Error,
    >)
        ensures
            match r {
                Ok(item) => is_county_entry(item@, name@, parcels@) && forall|x: Seq<char>|
                    texts(final(done)@).contains(x) <==> texts(old(done)@).contains(x) || x
                        == name@ || county_taxlot::is_address_of(parcels@, item@.mailing_address[0], x),
                Err(e) => e == Error::UnknownError && (forall|address: Seq<char>|
                    !county_taxlot::is_address_of(parcels@, address, name@)) && forall|x: Seq<char>|
                    texts(final(done)@).contains(x) <==> texts(old(done)@).contains(x) || x
                        == name@,
            },
    {
        let owner = name.to_owned();
        note(done, &owner);
        let addr = parcels.associated_addresses(name);
        if addr.len() == 0 {
            proof {
                assert forall|address: Seq<char>| !county_taxlot::is_address_of(
                    parcels@,
                    address,
                    name@,
                ) by {
                    if county_taxlot::is_address_of(parcels@, address, name@) {
                        assert(texts(addr@).contains(address));
                    }
                }
            }
            return Err(Error::UnknownError);
        }
        let mut csz: Vec<String> = Vec::new();
        let mut i: usize = 0;
        while i < parcels.0.len()
            invariant
                i <= parcels.0.len(),
                texts(csz@) == county_csz(parcels@.take(i as int), texts(addr@)),
            decreases parcels.0.len() - i,
        {
            let ghost before = texts(csz@);
            assert(parcels@.take(i + 1).drop_last() =~= parcels@.take(i as int));
            if contains_text(&addr, parcels.0[i].address()) {
                csz.push(parcels.0[i].csz().clone());
                assert(texts(csz@) =~= before.push(parcels@[i as int].csz));
            }
            i = i + 1;
        }
        assert(parcels@.take(i as int) =~= parcels@);
        let csz = sorted_texts(csz);
        let mailing = &addr[0];
        assert(texts(addr@)[0] == mailing@);
        let names = parcels.associated_names(mailing.as_str());
        let ghost noted = texts(done@);
        let mut i: usize = 0;
        while i < names.len()
            invariant
                i <= names.len(),
                forall|x: Seq<char>|
                    #![trigger texts(done@).contains(x)]
                    texts(done@).contains(x) <==> noted.contains(x) || texts(names@).take(
                        i as int,
                    ).contains(x),
            decreases names.len() - i,
        {
            let ghost before = texts(done@);
            note(done, &names[i]);
            proof {
                lemma_take_contains(texts(names@), i as int);
                assert(texts(names@)[i as int] == names@[i as int]@);
                assert forall|x: Seq<char>|
                    #![trigger texts(done@).contains(x)]
                    texts(done@).contains(x) <==> noted.contains(x) || texts(names@).take(
                        i + 1,
                    ).contains(x) by {
                    assert(texts(done@).contains(x) <==> before.contains(x) || x
                        == names@[i as int]@);
                    assert(before.contains(x) <==> noted.contains(x) || texts(names@).take(
                        i as int,
                    ).contains(x));
                    assert(texts(names@).take(i + 1).contains(x) <==> texts(names@).take(
                        i as int,
                    ).contains(x) || x == texts(names@)[i as int]);
                }
            }
            i = i + 1;
        }
        assert(texts(names@).take(i as int) =~= texts(names@));
        let others = without_name(&names, &owner);
        let mut situs: Vec<String> = Vec::new();
        let mut i: usize = 0;
        while i < parcels.0.len()
            invariant
                i <= parcels.0.len(),
                texts(situs@) == county_situs(parcels@.take(i as int), mailing@),
            decreases parcels.0.len() - i,
        {
            let ghost before = texts(situs@);
            assert(parcels@.take(i + 1).drop_last() =~= parcels@.take(i as int));
            if *parcels.0[i].address() == *mailing {
                situs.push(parcels.0[i].situs().clone());
                assert(texts(situs@) =~= before.push(parcels@[i as int].situs));
            }
            i = i + 1;
        }
        assert(parcels@.take(i as int) =~= parcels@);
        let mut tax_parcels: Vec<String> = Vec::new();
        let mut i: usize = 0;
        while i < parcels.0.len()
            invariant
                i <= parcels.0.len(),
                texts(tax_parcels@) == county_parcels(parcels@.take(i as int), texts(situs@)),
            decreases parcels.0.len() - i,
        {
            let ghost before = texts(tax_parcels@);
            assert(parcels@.take(i + 1).drop_last() =~= parcels@.take(i as int));
            if contains_text(&situs, parcels.0[i].situs()) {
                tax_parcels.push(parcels.0[i].map_number().clone());
                assert(texts(tax_parcels@) =~= before.push(parcels@[i as int].map_number));
            }
            i = i + 1;
        }
        assert(parcels@.take(i as int) =~= parcels@);
        let item = MailingListItem {
            name: owner,
            properties: situs.len(),
            situs_addresses: FlatList::new(situs),
            mailing_address: FlatList::new(addr),
            mailing_csz: FlatList::new(csz),
            associated_names: FlatList::new(others),
            parcels: FlatList::new(tax_parcels),
        };
        proof {
            assert(without(texts(names@), name@) == item@.associated_names);
            assert(item@.mailing_address[0] == mailing@);
            assert forall|x: Seq<char>|
                texts(done@).contains(x) <==> texts(old(done)@).contains(x) || x == name@
                    || county_taxlot::is_address_of(parcels@, item@.mailing_address[0], x) by {
                assert(texts(names@).contains(x) <==> county_taxlot::is_address_of(
                    parcels@,
                    mailing@,
                    x,
                ));
                assert(noted.contains(x) <==> texts(old(done)@).contains(x) || x == name@);
            }
        }
        Ok(item)
    }
}

/// Whether an entry takes care of a name: it is the entry of that name, or
/// mail for that name goes to the first address of the entry.
pub open spec fn county_covers(item: MailingListItemView, lots: Seq<CountyTaxlotView>, name: Seq<char>) -> bool {
    item.name == name || (item.mailing_address.len() > 0 && county_taxlot::is_address_of(
        lots,
        item.mailing_address[0],
        name,
    ))
}

/// Whether one of the entries takes care of a name.
pub open spec fn county_covered(items: Seq<MailingListItemView>, lots: Seq<CountyTaxlotView>, name: Seq<char>) -> bool {
    exists|k: int| 0 <= k < items.len() && county_covers(#[trigger] items[k], lots, name)
}

/// Whether a list is the mailing list of the tax lots: its entries are
/// entries of owners, with the names ascending; no entry is of a name that an
/// entry before it takes care of; and every owner has an entry or is taken
/// care of by the entry of a name before.
pub open spec fn is_county_list(items: Seq<MailingListItemView>, lots: Seq<CountyTaxlotView>) -> bool {
    &&& forall|i: int|
        0 <= i < items.len() ==> is_county_entry(#[trigger] items[i], items[i].name, lots)
            && county_taxlot::owner_names_of(lots).contains(items[i].name)
    &&& forall|i: int, j: int|
        0 <= i < j < items.len() ==> text_lt((#[trigger] items[i]).name, (#[trigger] items[j]).name)
            && !county_covers(items[i], lots, items[j].name)
    &&& forall|name: Seq<char>|
        #![trigger county_taxlot::owner_names_of(lots).contains(name)]
        county_taxlot::owner_names_of(lots).contains(name) ==> county_cared_for(items, lots, name)
}

/// Whether a name is taken care of by its own entry or by the entry of a
/// name before it.
pub open spec fn county_cared_for(items: Seq<MailingListItemView>, lots: Seq<CountyTaxlotView>, name: Seq<char>) -> bool {
    exists|k: int|
        0 <= k < items.len() && county_covers(#[trigger] items[k], lots, name) && (items[k].name
            == name || text_lt(items[k].name, name))
}

/// What holds of the entries while the names are gone through: so far the
/// first `i` names have been seen.
#[verifier::opaque]
pub open spec fn county_so_far(
    items: Seq<MailingListItemView>,
    lots: Seq<CountyTaxlotView>,
    names: Seq<Seq<char>>,
    i: int,
    done: Seq<Seq<char>>,
) -> bool {
    &&& forall|k: int|
        0 <= k < items.len() ==> is_county_entry(#[trigger] items[k], items[k].name, lots)
            && county_taxlot::owner_names_of(lots).contains(items[k].name)
    &&& forall|k: int, j: int|
        0 <= k < j < items.len() ==> text_lt((#[trigger] items[k]).name, (#[trigger] items[j]).name)
            && !county_covers(items[k], lots, items[j].name)
    &&& forall|k: int|
        0 <= k < items.len() ==> exists|p: int|
            0 <= p < i && #[trigger] names[p] == (#[trigger] items[k]).name
    &&& forall|x: Seq<char>| #[trigger] done.contains(x) <==> county_covered(items, lots, x)
    &&& forall|p: int| 0 <= p < i ==> county_cared_for(items, lots, #[trigger] names[p])
}

/// Nothing has been seen yet.
proof fn lemma_county_start(lots: Seq<CountyTaxlotView>, names: Seq<Seq<char>>)
    ensures
        county_so_far(Seq::empty(), lots, names, 0, Seq::empty()),
{
    reveal(county_so_far);
}

/// A name that is taken care of already is passed over.
proof fn lemma_county_skip(
    items: Seq<MailingListItemView>,
    lots: Seq<CountyTaxlotView>,
    names: Seq<Seq<char>>,
    i: int,
    done: Seq<Seq<char>>,
)
    requires
        0 <= i < names.len(),
        texts_ascend(names),
        county_so_far(items, lots, names, i, done),
        done.contains(names[i]),
    ensures
        county_so_far(items, lots, names, i + 1, done),
{
    reveal(county_so_far);
    let name = names[i];
    assert(county_covered(items, lots, name));
    let k = choose|k: int| 0 <= k < items.len() && county_covers(#[trigger] items[k], lots, name);
    let p = choose|p: int| 0 <= p < i && #[trigger] names[p] == items[k].name;
    assert(text_lt(names[p], names[i]));
    assert(county_cared_for(items, lots, name));
    assert forall|k: int| 0 <= k < items.len() implies exists|p: int|
        0 <= p < i + 1 && #[trigger] names[p] == (#[trigger] items[k]).name by {
        let p = choose|p: int| 0 <= p < i && #[trigger] names[p] == items[k].name;
        assert(names[p] == items[k].name);
    }
}

/// A name that is not taken care of gets its entry.
proof fn lemma_county_push(
    items: Seq<MailingListItemView>,
    item: MailingListItemView,
    lots: Seq<CountyTaxlotView>,
    names: Seq<Seq<char>>,
    i: int,
    done: Seq<Seq<char>>,
    after: Seq<Seq<char>>,
)
    requires
        0 <= i < names.len(),
        texts_ascend(names),
        county_so_far(items, lots, names, i, done),
        !done.contains(names[i]),
        is_county_entry(item, names[i], lots),
        county_taxlot::owner_names_of(lots).contains(names[i]),
        forall|x: Seq<char>|
            #[trigger] after.contains(x) <==> done.contains(x) || county_covers(item, lots, x),
    ensures
        county_so_far(items.push(item), lots, names, i + 1, after),
{
    reveal(county_so_far);
    let name = names[i];
    let more = items.push(item);
    assert(item.name == name);
    assert forall|k: int| 0 <= k < items.len() implies text_lt(
        (#[trigger] items[k]).name,
        name,
    ) && !county_covers(items[k], lots, name) by {
        let p = choose|p: int| 0 <= p < i && #[trigger] names[p] == items[k].name;
        assert(text_lt(names[p], names[i]));
        if county_covers(items[k], lots, name) {
            assert(county_covered(items, lots, name));
        }
    }
    assert forall|k: int| 0 <= k < more.len() implies is_county_entry(
        #[trigger] more[k],
        more[k].name,
        lots,
    ) && county_taxlot::owner_names_of(lots).contains(more[k].name) by {
        if k < items.len() {
            assert(more[k] == items[k]);
        }
    }
    assert forall|k: int, j: int| 0 <= k < j < more.len() implies text_lt(
        (#[trigger] more[k]).name,
        (#[trigger] more[j]).name,
    ) && !county_covers(more[k], lots, more[j].name) by {
        assert(more[k] == items[k]);
        if j < items.len() {
            assert(more[j] == items[j]);
        }
    }
    assert forall|k: int| 0 <= k < more.len() implies exists|p: int|
        0 <= p < i + 1 && #[trigger] names[p] == (#[trigger] more[k]).name by {
        if k < items.len() {
            assert(more[k] == items[k]);
            let p = choose|p: int| 0 <= p < i && #[trigger] names[p] == items[k].name;
            assert(names[p] == more[k].name);
        } else {
            assert(names[i] == more[k].name);
        }
    }
    assert forall|x: Seq<char>| #[trigger] after.contains(x) <==> county_covered(
        more,
        lots,
        x,
    ) by {
        assert(done.contains(x) <==> county_covered(items, lots, x));
        if county_covered(items, lots, x) {
            let k = choose|k: int| 0 <= k < items.len() && county_covers(#[trigger] items[k], lots, x);
            assert(more[k] == items[k]);
        }
        if county_covers(item, lots, x) {
            assert(more[items.len() as int] == item);
        }
        if county_covered(more, lots, x) {
            let k = choose|k: int| 0 <= k < more.len() && county_covers(#[trigger] more[k], lots, x);
            if k < items.len() {
                assert(more[k] == items[k]);
            }
        }
    }
    assert forall|p: int| 0 <= p < i + 1 implies county_cared_for(more, lots, #[trigger] names[p]) by {
        if p < i {
            assert(county_cared_for(items, lots, names[p]));
            let k = choose|k: int|
                0 <= k < items.len() && county_covers(#[trigger] items[k], lots, names[p]) && (
                items[k].name == names[p] || text_lt(items[k].name, names[p]));
            assert(more[k] == items[k]);
        } else {
            assert(more[items.len() as int] == item);
            assert(county_covers(more[items.len() as int], lots, names[p]));
        }
    }
}

/// When all names have been seen, the list is the mailing list.
proof fn lemma_county_end(
    items: Seq<MailingListItemView>,
    lots: Seq<CountyTaxlotView>,
    names: Seq<Seq<char>>,
    done: Seq<Seq<char>>,
)
    requires
        county_so_far(items, lots, names, names.len() as int, done),
        same_values(names, county_taxlot::owner_names_of(lots)),
    ensures
        is_county_list(items, lots),
{
    reveal(county_so_far);
    assert forall|name: Seq<char>|
        #![trigger county_taxlot::owner_names_of(lots).contains(name)]
        county_taxlot::owner_names_of(lots).contains(name) implies county_cared_for(items, lots, name) by {
        assert(names.contains(name));
        let p = choose|p: int| 0 <= p < names.len() && names[p] == name;
        assert(county_cared_for(items, lots, names[p]));
    }
}

/// An owner has an address.
proof fn lemma_county_owner_has_address(lots: Seq<CountyTaxlotView>, name: Seq<char>)
    requires
        county_taxlot::owner_names_of(lots).contains(name),
    ensures
        exists|address: Seq<char>| county_taxlot::is_address_of(lots, address, name),
{
    let k = choose|k: int|
        0 <= k < county_taxlot::owner_names_of(lots).len() && county_taxlot::owner_names_of(lots)[k] == name;
    assert(lots[k].owner_name == name);
    assert(county_taxlot::is_address_of(lots, lots[k].address, name));
}

impl MailingList {
    /// The mailing list of the owners of the tax lots: the owners are gone
    /// through in ascending order, and whoever gets mail at the first
    /// address of an owner before has no entry.
    pub fn try_from_county(parcels: &CountyTaxlots) -> (r: Result<Self, Error>)
        ensures
            r is Ok,
            is_county_list(r->Ok_0@, parcels@),
    {
        let names = sorted_texts(parcels.owner_names());
        let mut records: Vec<MailingListItem> = Vec::new();
        let mut done: Vec<String> = Vec::new();
        let mut i: usize = 0;
        proof {
            lemma_county_start(parcels@, texts(names@));
            assert(MailingList(records)@ =~= Seq::<MailingListItemView>::empty());
            assert(texts(done@) =~= Seq::<Seq<char>>::empty());
        }
        while i < names.len()
            invariant
                i <= names.len(),
                texts_ascend(texts(names@)),
                same_values(texts(names@), county_taxlot::owner_names_of(parcels@)),
                county_so_far(
                    MailingList(records)@,
                    parcels@,
                    texts(names@),
                    i as int,
                    texts(done@),
                ),
            decreases names.len() - i,
        {
            let ghost before = MailingList(records)@;
            let ghost noted = texts(done@);
            assert(texts(names@)[i as int] == names@[i as int]@);
            if !contains_text(&done, &names[i]) {
                proof {
                    assert(texts(names@).contains(texts(names@)[i as int]));
                    lemma_county_owner_has_address(parcels@, names@[i as int]@);
                }
                match MailingListItem::from_county_parcels(names[i].as_str(), parcels, &mut done) {
                    Ok(item) => {
                        records.push(item);
                        proof {
                            assert(MailingList(records)@ =~= before.push(item@));
                            lemma_county_push(
                                before,
                                item@,
                                parcels@,
                                texts(names@),
                                i as int,
                                noted,
                                texts(done@),
                            );
                        }
                    },
                    Err(e) => {
                        assert(false);
                        return Err(e);
                    },
                }
            } else {
                proof {
                    lemma_county_skip(before, parcels@, texts(names@), i as int, noted);
                }
            }
            i = i + 1;
        }
        proof {
            lemma_county_end(MailingList(records)@, parcels@, texts(names@), texts(done@));
        }
        Ok(MailingList(records))
    }
}

} // verus!
