//! The datasets that this crate knows, and the check of a catalog against
//! them.

use crate::datasets::{DatasetDetailsView, Datasets};
use crate::error::{BeaErr, ErrorView, Origin};
use crate::results::{BeaResponse, BeaResponseView, ResultsView};
use crate::rows::row_views;
use crate::text::same_text;
use vstd::prelude::*;

verus! {

/// The datasets of the service.
#[derive(Clone, Copy, Debug, PartialEq, Eq, Structural)]
pub enum Dataset {
    ApiDatasetMetadata,
    FixedAssets,
    GdpByIndustry,
    Iip,
    InputOutput,
    IntlServSta,
    IntlServTrade,
    Ita,
    Mne,
    NiUnderlyingDetail,
    Nipa,
    Regional,
    UnderlyingGdpByIndustry,
}

/// The name of a dataset in small letters.
pub open spec fn lower_of(dataset: Dataset) -> Seq<char> {
    match dataset {
        Dataset::ApiDatasetMetadata => "apidatasetmetadata"@,
        Dataset::FixedAssets => "fixedassets"@,
        Dataset::GdpByIndustry => "gdpbyindustry"@,
        Dataset::Iip => "iip"@,
        Dataset::InputOutput => "inputoutput"@,
        Dataset::IntlServSta => "intlservsta"@,
        Dataset::IntlServTrade => "intlservtrade"@,
        Dataset::Ita => "ita"@,
        Dataset::Mne => "mne"@,
        Dataset::NiUnderlyingDetail => "niunderlyingdetail"@,
        Dataset::Nipa => "nipa"@,
        Dataset::Regional => "regional"@,
        Dataset::UnderlyingGdpByIndustry => "underlyinggdpbyindustry"@,
    }
}

/// All datasets, in the order of their declaration.
pub open spec fn all_datasets() -> Seq<Dataset> {
    seq![
        Dataset::ApiDatasetMetadata,
        Dataset::FixedAssets,
        Dataset::GdpByIndustry,
        Dataset::Iip,
        Dataset::InputOutput,
        Dataset::IntlServSta,
        Dataset::IntlServTrade,
        Dataset::Ita,
        Dataset::Mne,
        Dataset::NiUnderlyingDetail,
        Dataset::Nipa,
        Dataset::Regional,
        Dataset::UnderlyingGdpByIndustry,
    ]
}

impl Dataset {
    /// All datasets, in the order of their declaration.
    pub fn iter() -> (r: Vec<Dataset>)
        ensures
            r@ == all_datasets(),
    {
        let mut all: Vec<Dataset> = Vec::new();
        all.push(Dataset::ApiDatasetMetadata);
        all.push(Dataset::FixedAssets);
        all.push(Dataset::GdpByIndustry);
        all.push(Dataset::Iip);
        all.push(Dataset::InputOutput);
        all.push(Dataset::IntlServSta);
        all.push(Dataset::IntlServTrade);
        all.push(Dataset::Ita);
        all.push(Dataset::Mne);
        all.push(Dataset::NiUnderlyingDetail);
        all.push(Dataset::Nipa);
        all.push(Dataset::Regional);
        all.push(Dataset::UnderlyingGdpByIndustry);
        assert(all@ =~= all_datasets());
        all
    }

    /// The name of the dataset in small letters.
    pub fn lower(&self) -> (r: String)
        ensures
            r@ == lower_of(*self),
    {
        match self {
            Dataset::ApiDatasetMetadata => "apidatasetmetadata".to_owned(),
            Dataset::FixedAssets => "fixedassets".to_owned(),
            Dataset::GdpByIndustry => "gdpbyindustry".to_owned(),
            Dataset::Iip => "iip".to_owned(),
            Dataset::InputOutput => "inputoutput".to_owned(),
            Dataset::IntlServSta => "intlservsta".to_owned(),
            Dataset::IntlServTrade => "intlservtrade".to_owned(),
            Dataset::Ita => "ita".to_owned(),
            Dataset::Mne => "mne".to_owned(),
            Dataset::NiUnderlyingDetail => "niunderlyingdetail".to_owned(),
            Dataset::Nipa => "nipa".to_owned(),
            Dataset::Regional => "regional".to_owned(),
            Dataset::UnderlyingGdpByIndustry => "underlyinggdpbyindustry".to_owned(),
        }
    }
}

/// What `str::to_lowercase` makes of a text.
pub uninterp spec fn lowercase_of(text: Seq<char>) -> Seq<char>;

/// `str::to_lowercase`.
#[verifier::external_body]
fn to_lowercase(text: &str) -> (r: String)
    ensures
        r@ == lowercase_of(text@),
{
    text.to_lowercase()
}

/// Whether a name, put in small letters, is the name of a known dataset.
pub open spec fn known_name(name: Seq<char>) -> bool {
    exists|i: int|
        0 <= i < all_datasets().len() && lower_of(#[trigger] all_datasets()[i]) == lowercase_of(
            name,
        )
}

/// The first dataset of a catalog whose name is not that of a known dataset.
pub open spec fn first_unknown_of(catalog: Seq<DatasetDetailsView>) -> Option<Seq<char>>
    decreases catalog.len(),
{
    if catalog.len() == 0 {
        None
    } else if !known_name(catalog[0].dataset_name) {
        Some(catalog[0].dataset_name)
    } else {
        first_unknown_of(catalog.drop_first())
    }
}

/// What the check of a response gives: `DatasetMissing` with the name of the
/// first dataset that is not known, where the response holds a catalog of
/// datasets and one of them is not known.
pub open spec fn check_datasets_of(response: BeaResponseView) -> Result<(), ErrorView> {
    match response.beaapi.results {
        ResultsView::Datasets(catalog) => match first_unknown_of(catalog) {
            Some(name) => Err(ErrorView::DatasetMissing { name, origin: Origin::Check }),
            None => Ok(()),
        },
        _ => Ok(()),
    }
}

/// Whether `name`, in small letters already, is the name of a known dataset.
fn is_known(name: &str) -> (r: bool)
    ensures
        r == exists|i: int|
            0 <= i < all_datasets().len() && lower_of(#[trigger] all_datasets()[i]) == name@,
{
    let all = Dataset::iter();
    let mut i: usize = 0;
    while i < all.len()
        invariant
            i <= all.len(),
            all@ == all_datasets(),
            forall|k: int| 0 <= k < i ==> lower_of(#[trigger] all_datasets()[k]) != name@,
        decreases all.len() - i,
    {
        let lower = all[i].lower();
        if same_text(lower.as_str(), name) {
            return true;
        }
        i += 1;
    }
    false
}

/// The name of the first dataset of a catalog that is not known.
pub fn first_unknown(datasets: &Datasets) -> (r: Option<String>)
    ensures
        match r {
            Some(name) => first_unknown_of(datasets@) == Some(name@),
            None => first_unknown_of(datasets@) is None,
        },
{
    let rows = datasets.dataset();
    let ghost catalog = datasets@;
    let mut i: usize = 0;
    assert(catalog.skip(0) =~= catalog);
    while i < rows.len()
        invariant
            i <= rows.len(),
            catalog == row_views(rows@),
            catalog == datasets@,
            first_unknown_of(catalog) == first_unknown_of(catalog.skip(i as int)),
        decreases rows.len() - i,
    {
        assert(catalog.skip(i as int)[0] == catalog[i as int]);
        assert(catalog.skip(i as int).drop_first() =~= catalog.skip(i + 1));
        let name = rows[i].dataset_name();
        let lower = to_lowercase(name.as_str());
        if !is_known(lower.as_str()) {
            return Some(name.clone());
        }
        i += 1;
    }
    None
}

/// Checks that every dataset of the catalog that a response holds is a
/// known dataset. A response that holds no catalog of datasets passes.
pub fn check_datasets(response: &BeaResponse) -> (r: Result<(), BeaErr>)
    ensures
        match r {
            Ok(_) => check_datasets_of(response@) is Ok,
            Err(e) => check_datasets_of(response@) == Err::<(), ErrorView>(e@),
        },
{
    match response.datasets() {
        Some(datasets) => match first_unknown(&datasets) {
            Some(name) => Err(BeaErr::DatasetMissing { name, origin: Origin::Check }),
            None => Ok(()),
        },
        None => Ok(()),
    }
}

} // verus!
