//! The flag that asks for figures in millions.

use crate::error::{outcome, BeaErr, ErrorView, Origin};
use crate::parameter_values::{
    NipaShowMillions, NipaShowMillionsView, ParameterValueTable, ParameterValueTableView,
};
use crate::text::decode_flag;
use vstd::prelude::*;

verus! {

/// Whether figures come in millions, with the description that the service
/// gave of the choice.
#[derive(Debug, PartialEq, Eq, PartialOrd, Ord, Hash)]
pub struct Millions {
    description: String,
    show: bool,
}

/// The mathematical value of a [`Millions`].
pub struct MillionsView {
    pub description: Seq<char>,
    pub show: bool,
}

impl View for Millions {
    type V = MillionsView;

    closed spec fn view(&self) -> MillionsView {
        MillionsView { description: self.description@, show: self.show }
    }
}

impl Clone for Millions {
    fn clone(&self) -> (r: Self)
        ensures
            r@ == self@,
    {
        Millions { description: self.description.clone(), show: self.show }
    }
}

impl Default for Millions {
    /// No description, and figures not in millions.
    fn default() -> (r: Self)
        ensures
            r@ == (MillionsView { description: Seq::empty(), show: false }),
    {
        Millions { description: String::new(), show: false }
    }
}

/// The flag that a choice stands for: the code `Y` is `true`, the code `N` is
/// `false`, and every other code is refused with `VariantMissing`.
pub open spec fn millions_of(value: NipaShowMillionsView) -> Result<MillionsView, ErrorView> {
    if value.show_millions_id == "Y"@ {
        Ok(MillionsView { description: value.description, show: true })
    } else if value.show_millions_id == "N"@ {
        Ok(MillionsView { description: value.description, show: false })
    } else {
        Err(
            ErrorView::VariantMissing {
                clue: "value of 'Y' or 'N' expected"@,
                input: value.show_millions_id,
                expected: seq!["Y"@, "N"@],
                origin: Origin::Millions,
            },
        )
    }
}

/// The flag that a row of parameter values stands for. The row must be a
/// choice of figures in millions.
pub open spec fn millions_of_row(row: ParameterValueTableView) -> Result<MillionsView, ErrorView> {
    match row {
        ParameterValueTableView::NipaShowMillions(value) => millions_of(value),
        ParameterValueTableView::ParameterFields(_) => Err(
            ErrorView::VariantMissing {
                clue: "NipaShowMillions needed"@,
                input: "ParameterFields"@,
                expected: seq!["NipaShowMillions"@],
                origin: Origin::Millions,
            },
        ),
    }
}

impl Millions {
    pub fn new(description: String, show: bool) -> (r: Self)
        ensures
            r@ == (MillionsView { description: description@, show }),
    {
        Millions { description, show }
    }

    pub fn description(&self) -> (r: &String)
        ensures
            r@ == self@.description,
    {
        &self.description
    }

    pub fn show(&self) -> (r: &bool)
        ensures
            *r == self@.show,
    {
        &self.show
    }

    /// The flag in words, as it is shown to a reader: `true` or `false`.
    pub fn to_string(&self) -> (r: String)
        ensures
            r@ == if self@.show {
                "true"@
            } else {
                "false"@
            },
    {
        if self.show {
            "true".to_owned()
        } else {
            "false".to_owned()
        }
    }
}

impl TryFrom<&NipaShowMillions> for Millions {
    type Error = BeaErr;

    /// Decodes the flag from the code of a choice.
    fn try_from(value: &NipaShowMillions) -> (r: Result<Self, BeaErr>)
        ensures
            outcome(r) == millions_of(value@),
    {
        let clue = "value of 'Y' or 'N' expected";
        match decode_flag(value.show_millions_id().as_str(), "Y", "N", clue, Origin::Millions) {
            Ok(show) => Ok(Millions { description: value.description().clone(), show }),
            Err(e) => Err(e),
        }
    }
}

/// The conversion follows no spec function: what it returns is stated in the
/// contract of `try_from`.
impl vstd::std_specs::convert::TryFromSpecImpl<&NipaShowMillions> for Millions {
    open spec fn obeys_try_from_spec() -> bool {
        false
    }

    open spec fn try_from_spec(value: &NipaShowMillions) -> Result<Self, BeaErr> {
        arbitrary()
    }
}

impl TryFrom<&ParameterValueTable> for Millions {
    type Error = BeaErr;

    /// Decodes the flag from a row of parameter values.
    fn try_from(value: &ParameterValueTable) -> (r: Result<Self, BeaErr>)
        ensures
            outcome(r) == millions_of_row(value@),
    {
        match value {
            ParameterValueTable::NipaShowMillions(mil) => Millions::try_from(mil),
            ParameterValueTable::ParameterFields(_) => {
                let mut expected: Vec<String> = Vec::new();
                expected.push("NipaShowMillions".to_owned());
                proof {
                    assert(expected.deep_view() =~= seq!["NipaShowMillions"@]);
                }
                Err(
                    BeaErr::VariantMissing {
                        clue: "NipaShowMillions needed".to_owned(),
                        input: "ParameterFields".to_owned(),
                        expected,
                        origin: Origin::Millions,
                    },
                )
            },
        }
    }
}

/// The conversion follows no spec function: what it returns is stated in the
/// contract of `try_from`.
impl vstd::std_specs::convert::TryFromSpecImpl<&ParameterValueTable> for Millions {
    open spec fn obeys_try_from_spec() -> bool {
        false
    }

    open spec fn try_from_spec(value: &ParameterValueTable) -> Result<Self, BeaErr> {
        arbitrary()
    }
}

} // verus!
