//! Records as they are brought in from other systems.
pub mod bea;
pub mod beehive;
pub mod city_taxlot;
pub mod county_taxlot;
pub mod jc_survey;
pub mod utilities;

pub use bea::{BeaColumns, BeaData, BeaDataRaw, BeaDatum, BeaDatumRaw};
pub use city_taxlot::{CityTaxlot, CityTaxlots};
pub use county_taxlot::{CountyTaxlot, CountyTaxlots};
pub use jc_survey::{
    JcSurvey, JcSurveyExport, JcSurveyExportItem, JcSurveyItem, JcSurveyRaw, JcSurveyRawItem,
    Matched, Vote,
};
