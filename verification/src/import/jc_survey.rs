//! A survey of households, whose answers come with an address.
use crate::error::Error;
use crate::text::{clone_opt, same};
use vstd::prelude::*;

verus! {

/// What a household voted for in the survey on how to pay for public safety.
#[derive(Debug, Clone, Copy, PartialEq, Eq, Structural)]
pub enum Vote {
    /// A utility fee for public safety.
    UtilityFee,
    /// A tax on food and beverages.
    FoodBeverageTax,
    /// A general sales tax.
    GeneralSalesTax,
    /// A utility fee and a sales tax.
    UtilityFeeSalesTax,
    /// A utility fee and a tax on food and beverages.
    UtilityFeeFoodBeverageTax,
    /// Less service.
    ReduceService,
}

/// One answer as it came in: every field a text, if it was filled in.
#[derive(Debug, Clone, PartialEq, Eq)]
pub struct JcSurveyRawItem {
    /// The city.
    pub city: Option<String>,
    /// The address.
    pub address: Option<String>,
    /// The option that was chosen.
    pub option: Option<String>,
}

/// The answers as they came in.
#[derive(Debug, Clone, PartialEq, Eq)]
pub struct JcSurveyRaw {
    /// The answers.
    pub records: Vec<JcSurveyRawItem>,
}

/// One answer: the address as the parser of addresses made it out, and the
/// vote.
#[derive(Debug, Clone, PartialEq, Eq)]
pub struct JcSurveyItem<A> {
    /// The city.
    pub city: Option<String>,
    /// The address.
    pub address: A,
    /// The vote.
    pub option: Vote,
}

/// The answers.
#[derive(Debug, Clone, PartialEq, Eq)]
pub struct JcSurvey<A> {
    /// The answers.
    pub records: Vec<JcSurveyItem<A>>,
}

/// An address of the city that an address of the survey was matched with.
#[derive(Debug, Clone, PartialEq, Eq)]
pub struct Matched {
    /// Whether nothing was found, and the record only says so.
    pub missing: bool,
    /// The address, written out.
    pub address_label: String,
    /// The bit pattern of the longitude.
    pub longitude: u64,
    /// The bit pattern of the latitude.
    pub latitude: u64,
}

/// One answer with the address of the city it was matched with.
#[derive(Debug, Clone, PartialEq, Eq)]
pub struct JcSurveyExportItem {
    /// The address, written out.
    pub address: String,
    /// The vote.
    pub option: Vote,
    /// The bit pattern of the first ordinate of the place.
    pub x_coordinate: u64,
    /// The bit pattern of the second ordinate of the place.
    pub y_coordinate: u64,
}

/// The answers that were matched with an address of the city.
#[derive(Debug, Clone, PartialEq, Eq)]
pub struct JcSurveyExport {
    /// The answers.
    pub records: Vec<JcSurveyExportItem>,
}

/// What an answer that was matched holds.
pub struct ExportView {
    pub address: Seq<char>,
    pub option: Vote,
    pub x_coordinate: u64,
    pub y_coordinate: u64,
}

impl View for JcSurveyExport {
    type V = Seq<ExportView>;

    open spec fn view(&self) -> Seq<ExportView> {
        Seq::new(
            self.records@.len(),
            |i: int|
                ExportView {
                    address: self.records@[i].address@,
                    option: self.records@[i].option,
                    x_coordinate: self.records@[i].x_coordinate,
                    y_coordinate: self.records@[i].y_coordinate,
                },
        )
    }
}

impl Vote {
    /// The vote that a text names, if it names one.
    pub open spec fn named(input: Seq<char>) -> Option<Vote> {
        if input == "Option 1: $27/$88 Public Safety Utility Fee only"@ {
            Some(Vote::UtilityFee)
        } else if input == "Option 2: 7% Food & Beverage Tax only"@ {
            Some(Vote::FoodBeverageTax)
        } else if input == "Option 3: 2% General Sales Tax only"@ {
            Some(Vote::GeneralSalesTax)
        } else if input == "Option 4: Utility Fee/Sales Tax"@ {
            Some(Vote::UtilityFeeSalesTax)
        } else if input == "Option 5: Utility Fee/Food & Beverage Tax"@ {
            Some(Vote::UtilityFeeFoodBeverageTax)
        } else if input == "Option 6: Reduce Police/Fire Staffing"@ {
            Some(Vote::ReduceService)
        } else {
            None
        }
    }

    /// Reads a vote.
    pub fn try_from(input: &String) -> (r: Result<Self, Error>)
        ensures
            match r {
                Ok(vote) => Vote::named(input@) == Some(vote),
                Err(e) => Vote::named(input@) is None && e == Error::ParseError,
            },
    {
        let input = input.as_str();
        if same(input, "Option 1: $27/$88 Public Safety Utility Fee only") {
            Ok(Vote::UtilityFee)
        } else if same(input, "Option 2: 7% Food & Beverage Tax only") {
            Ok(Vote::FoodBeverageTax)
        } else if same(input, "Option 3: 2% General Sales Tax only") {
            Ok(Vote::GeneralSalesTax)
        } else if same(input, "Option 4: Utility Fee/Sales Tax") {
            Ok(Vote::UtilityFeeSalesTax)
        } else if same(input, "Option 5: Utility Fee/Food & Beverage Tax") {
            Ok(Vote::UtilityFeeFoodBeverageTax)
        } else if same(input, "Option 6: Reduce Police/Fire Staffing") {
            Ok(Vote::ReduceService)
        } else {
            Err(Error::ParseError)
        }
    }
}

/// What is wrong with an answer, if anything: it has no address, its address
/// could not be made out, it has no option, or its option names no vote.
pub open spec fn fault_of(raw: JcSurveyRawItem, parsed: bool) -> Option<Error> {
    if raw.address is None {
        Some(Error::UnknownError)
    } else if !parsed {
        Some(Error::ParseError)
    } else if raw.option is None {
        Some(Error::UnknownError)
    } else if Vote::named(raw.option->Some_0@) is None {
        Some(Error::ParseError)
    } else {
        None
    }
}

impl<A> JcSurveyItem<A> {
    /// The answer that came in, with its address as the parser of addresses
    /// made it out, or with none where the parser could not.
    pub fn try_from(raw: &JcSurveyRawItem, address: Option<A>) -> (r: Result<Self, Error>)
        ensures
            match r {
                Ok(item) => fault_of(*raw, address is Some) is None && item.city == raw.city
                    && Some(item.address) == address && Some(item.option) == Vote::named(
                    raw.option->Some_0@,
                ),
                Err(e) => fault_of(*raw, address is Some) == Some(e),
            },
    {
        let city = clone_opt(&raw.city);
        if raw.address.is_none() {
            return Err(Error::UnknownError);
        }
        match address {
            Some(address) => match &raw.option {
                Some(option) => match Vote::try_from(option) {
                    Ok(option) => Ok(JcSurveyItem { city, address, option }),
                    Err(e) => Err(e),
                },
                None => Err(Error::UnknownError),
            },
            None => Err(Error::ParseError),
        }
    }
}

impl<A> JcSurvey<A> {
    /// The answers that came in, each with its address as the parser of
    /// addresses made it out: `addresses` holds for each answer what the
    /// parser made of its address. The first answer that something is wrong
    /// with spoils all, and its fault is the error.
    #[verifier::loop_isolation(false)]
    pub fn try_from(raw: &JcSurveyRaw, addresses: Vec<Option<A>>) -> (r: Result<Self, Error>)
        requires
            addresses@.len() == raw.records@.len(),
        ensures
            match r {
                Ok(survey) => survey.records@.len() == raw.records@.len() && forall|i: int|
                    0 <= i < raw.records@.len() ==> fault_of(
                        #[trigger] raw.records@[i],
                        addresses@[i] is Some,
                    ) is None && Some(survey.records@[i].address) == addresses@[i]
                        && survey.records@[i].city == raw.records@[i].city && Some(
                        survey.records@[i].option,
                    ) == Vote::named(raw.records@[i].option->Some_0@),
                Err(e) => exists|i: int|
                    0 <= i < raw.records@.len() && fault_of(
                        #[trigger] raw.records@[i],
                        addresses@[i] is Some,
                    ) == Some(e) && forall|k: int|
                        0 <= k < i ==> fault_of(
                            #[trigger] raw.records@[k],
                            addresses@[k] is Some,
                        ) is None,
            },
    {
        let ghost given = addresses@;
        let mut addresses = addresses;
        let mut waiting: Vec<Option<A>> = Vec::new();
        while addresses.len() > 0
            invariant
                addresses@ == given.take(addresses@.len() as int),
                waiting@.len() == given.len() - addresses@.len(),
                forall|k: int|
                    0 <= k < waiting@.len() ==> #[trigger] waiting@[k] == given[given.len() - 1 - k],
            decreases addresses.len(),
        {
            let ghost n = addresses@.len();
            match addresses.pop() {
                Some(address) => {
                    assert(address == given[n - 1]);
                    waiting.push(address);
                    assert(addresses@ =~= given.take(n - 1));
                },
                None => {},
            }
        }
        let mut records: Vec<JcSurveyItem<A>> = Vec::new();
        let mut i: usize = 0;
        while i < raw.records.len()
            invariant
                i <= raw.records@.len(),
                given.len() == raw.records@.len(),
                waiting@.len() == given.len() - i,
                forall|k: int|
                    0 <= k < waiting@.len() ==> #[trigger] waiting@[k] == given[given.len() - 1 - k],
                records@.len() == i,
                forall|k: int|
                    0 <= k < i ==> fault_of(#[trigger] raw.records@[k], given[k] is Some) is None
                        && Some(records@[k].address) == given[k] && records@[k].city
                        == raw.records@[k].city && Some(records@[k].option) == Vote::named(
                        raw.records@[k].option->Some_0@,
                    ),
            decreases raw.records.len() - i,
        {
            let ghost n = waiting@.len();
            let address = match waiting.pop() {
                Some(address) => address,
                None => None,
            };
            assert(address == given[i as int]);
            match JcSurveyItem::try_from(&raw.records[i], address) {
                Ok(item) => records.push(item),
                Err(e) => {
                    assert(fault_of(raw.records@[i as int], given[i as int] is Some) == Some(e));
                    return Err(e);
                },
            }
            i = i + 1;
        }
        Ok(JcSurvey { records })
    }

    /// The addresses of the answers, in their order.
    pub fn addresses(&self) -> (r: Vec<&A>)
        ensures
            r@.len() == self.records@.len(),
            forall|i: int| 0 <= i < r@.len() ==> *(#[trigger] r@[i]) == self.records@[i].address,
    {
        let mut r: Vec<&A> = Vec::new();
        let mut i: usize = 0;
        while i < self.records.len()
            invariant
                i <= self.records.len(),
                r@.len() == i,
                forall|k: int| 0 <= k < i ==> *(#[trigger] r@[k]) == self.records@[k].address,
            decreases self.records.len() - i,
        {
            r.push(&self.records[i].address);
            i = i + 1;
        }
        r
    }

    /// Whether an answer was matched with an address of the city: the first
    /// of the records found for it does not say that nothing was found.
    pub open spec fn is_matched(found: Seq<Matched>) -> bool {
        found.len() > 0 && !found[0].missing
    }

    /// The answers that were matched, each with the first address of the
    /// city that was found for it.
    pub open spec fn validated(votes: Seq<Vote>, found: Seq<Vec<Matched>>) -> Seq<ExportView>
        decreases votes.len(),
    {
        if votes.len() == 0 || found.len() != votes.len() {
            Seq::empty()
        } else if Self::is_matched(found.last()@) {
            Self::validated(votes.drop_last(), found.drop_last()).push(
                ExportView {
                    address: found.last()@[0].address_label@,
                    option: votes.last(),
                    x_coordinate: found.last()@[0].longitude,
                    y_coordinate: found.last()@[0].latitude,
                },
            )
        } else {
            Self::validated(votes.drop_last(), found.drop_last())
        }
    }

    /// The votes of the answers, in their order.
    pub open spec fn votes(&self) -> Seq<Vote> {
        Seq::new(self.records@.len(), |i: int| self.records@[i].option)
    }

    /// The answers that were matched with an address of the city, each with
    /// the first address that was found for it. `found` holds for each
    /// answer the records that the comparison with the addresses of the city
    /// gave.
    pub fn validate(&self, found: &Vec<Vec<Matched>>) -> (r: JcSurveyExport)
        requires
            found@.len() == self.records@.len(),
        ensures
            r@ == Self::validated(self.votes(), found@),
    {
        let mut records: Vec<JcSurveyExportItem> = Vec::new();
        let mut i: usize = 0;
        assert((JcSurveyExport { records })@ =~= Seq::<ExportView>::empty());
        while i < self.records.len()
            invariant
                i <= self.records.len(),
                found@.len() == self.records@.len(),
                (JcSurveyExport { records })@ == Self::validated(
                    self.votes().take(i as int),
                    found@.take(i as int),
                ),
            decreases self.records.len() - i,
        {
            let ghost before = (JcSurveyExport { records })@;
            assert(self.votes().take(i + 1).drop_last() =~= self.votes().take(i as int));
            assert(found@.take(i + 1).drop_last() =~= found@.take(i as int));
            let res = &found[i];
            if res.len() > 0 && !res[0].missing {
                records.push(
                    JcSurveyExportItem {
                        address: res[0].address_label.clone(),
                        option: self.records[i].option,
                        x_coordinate: res[0].longitude,
                        y_coordinate: res[0].latitude,
                    },
                );
                assert((JcSurveyExport { records })@ =~= before.push(
                    ExportView {
                        address: res@[0].address_label@,
                        option: self.records@[i as int].option,
                        x_coordinate: res@[0].longitude,
                        y_coordinate: res@[0].latitude,
                    },
                ));
            } else {
                assert((JcSurveyExport { records })@ =~= before);
            }
            i = i + 1;
        }
        assert(self.votes().take(i as int) =~= self.votes());
        assert(found@.take(i as int) =~= found@);
        JcSurveyExport { records }
    }
}

} // verus!
