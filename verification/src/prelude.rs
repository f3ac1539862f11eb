//! What most callers need.
pub use crate::data::{
    ActiveLicense, ActiveLicenses, Business, BusinessInfo, Businesses, BusinessesInfo,
    MailingList, MailingListExport, MailingListExportItem, MailingListItem,
};
pub use crate::import::{
    BeaData, BeaDataRaw, BeaDatum, BeaDatumRaw, CityTaxlot, CityTaxlots, CountyTaxlot,
    CountyTaxlots, JcSurvey,
};
