//! The address of the weather service, as it is looked over before a
//! request goes out.

use vstd::prelude::*;

verus! {

/// What a look at an address found.
#[derive(Debug, Clone, PartialEq, Eq)]
pub enum AddressCheck {
    /// An absolute URL, here in its normal form.
    Absolute(String),
    /// A relative URL, with nothing to stand on.
    RelativeWithoutBase,
    /// No URL, for the reason given.
    Invalid(String),
}

pub enum AddressCheckView {
    Absolute(Seq<char>),
    RelativeWithoutBase,
    Invalid(Seq<char>),
}

impl View for AddressCheck {
    type V = AddressCheckView;

    open spec fn view(&self) -> AddressCheckView {
        match self {
            AddressCheck::Absolute(text) => AddressCheckView::Absolute(text@),
            AddressCheck::RelativeWithoutBase => AddressCheckView::RelativeWithoutBase,
            AddressCheck::Invalid(reason) => AddressCheckView::Invalid(reason@),
        }
    }
}

/// What `url` makes of a text that is to be an absolute URL.
pub uninterp spec fn address_check_of(text: Seq<char>) -> AddressCheckView;

/// `url::Url::parse`: the URL that a text parses to, by its `Display`, or
/// the error, by its `Display` where it is not the one of a relative URL.
/// The outcome depends on the text alone.
#[verifier::external_body]
pub(crate) fn parse_address(text: &str) -> (found: AddressCheck)
    ensures
        found@ == address_check_of(text@),
{
    match url::Url::parse(text) {
        Ok(address) => AddressCheck::Absolute(address.to_string()),
        Err(url::ParseError::RelativeUrlWithoutBase) => AddressCheck::RelativeWithoutBase,
        Err(fault) => AddressCheck::Invalid(fault.to_string()),
    }
}

/// The line that is shown for an address that was looked over.
pub open spec fn report_of(found: AddressCheckView) -> Seq<char> {
    match found {
        AddressCheckView::Absolute(text) => text,
        AddressCheckView::RelativeWithoutBase => "Err(RelativeUrlWithoutBase)"@,
        AddressCheckView::Invalid(reason) => reason,
    }
}

/// The line that is shown for an address that was looked over: the URL,
/// or what is wrong with it.
pub fn address_report(found: &AddressCheck) -> (line: String)
    ensures
        line@ == report_of(found@),
{
    match found {
        AddressCheck::Absolute(text) => text.clone(),
        AddressCheck::RelativeWithoutBase => String::from_str("Err(RelativeUrlWithoutBase)"),
        AddressCheck::Invalid(reason) => reason.clone(),
    }
}

/// Looks an address over as an absolute URL.
pub fn check_address(server: &str) -> (found: AddressCheck)
    ensures
        found@ == address_check_of(server@),
{
    parse_address(server)
}

} // verus!
