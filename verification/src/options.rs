//! The two choices that a caller makes, and how each is read from text.

use crate::matrix::BayerMatrixOption;
use vstd::prelude::*;

verus! {

/// Which end of the brightness scale stays opaque in the colour mode.
#[derive(Clone, Copy, Debug, PartialEq, Eq, Structural)]
pub enum PreserveOrder {
    /// Pixels at or below the threshold stay opaque.
    Dark,
    /// Pixels above the threshold stay opaque.
    Light,
}

/// The text names no way of preserving order.
#[derive(Clone, Copy, Debug, PartialEq, Eq, Structural)]
pub struct PreserveOrderParseError;

/// The text names no threshold matrix.
#[derive(Clone, Copy, Debug, PartialEq, Eq, Structural)]
pub struct BayerMatrixParseError;

/// The lower-case form that `str::to_lowercase` gives a text.
pub uninterp spec fn lowercase_of(text: Seq<char>) -> Seq<char>;

/// `str::to_lowercase` maps each character to its Unicode lower-case form,
/// which depends on the text alone. Claimed: the result is what
/// `lowercase_of` names.
pub assume_specification[ str::to_lowercase ](text: &str) -> (lowered: String)
    ensures
        lowered@ == lowercase_of(text@),
;

impl PreserveOrder {
    /// The choice that a lower-case word names, if it names one: `dark` or
    /// `light`, letter for letter.
    pub open spec fn named_by(word: Seq<char>) -> Option<PreserveOrder> {
        if word.len() == 4 && word[0] == 'd' && word[1] == 'a' && word[2] == 'r' && word[3]
            == 'k' {
            Some(PreserveOrder::Dark)
        } else if word.len() == 5 && word[0] == 'l' && word[1] == 'i' && word[2] == 'g' && word[3]
            == 'h' && word[4] == 't' {
            Some(PreserveOrder::Light)
        } else {
            None
        }
    }

    /// Reads a choice from a word that is already in lower case.
    pub fn from_lowercase(word: &str) -> (choice: Result<PreserveOrder, PreserveOrderParseError>)
        ensures
            choice == match PreserveOrder::named_by(word@) {
                Some(order) => Ok::<PreserveOrder, PreserveOrderParseError>(order),
                None => Err(PreserveOrderParseError),
            },
    {
        let word = word.to_owned();
        proof {
            reveal_strlit("dark");
            reveal_strlit("light");
            if PreserveOrder::named_by(word@) == Some(PreserveOrder::Dark) {
                assert(word@ =~= "dark"@);
            }
            if PreserveOrder::named_by(word@) == Some(PreserveOrder::Light) {
                assert(word@ =~= "light"@);
            }
        }
        if word == "dark".to_owned() {
            Ok(PreserveOrder::Dark)
        } else if word == "light".to_owned() {
            Ok(PreserveOrder::Light)
        } else {
            Err(PreserveOrderParseError)
        }
    }

    /// Reads a choice from text, whatever the case of its letters.
    pub fn from_str(input: &str) -> (choice: Result<PreserveOrder, PreserveOrderParseError>)
        ensures
            choice == match PreserveOrder::named_by(lowercase_of(input@)) {
                Some(order) => Ok::<PreserveOrder, PreserveOrderParseError>(order),
                None => Err(PreserveOrderParseError),
            },
    {
        let lowered = input.to_lowercase();
        PreserveOrder::from_lowercase(lowered.as_str())
    }
}

impl PreserveOrderParseError {
    /// What to tell the user.
    pub fn message(&self) -> (text: String)
        ensures
            text@ == "Invalid preserve order option. Choose from: dark, light."@,
    {
        "Invalid preserve order option. Choose from: dark, light.".to_owned()
    }
}

impl BayerMatrixOption {
    /// The matrix that a lower-case word names, if it names one: `m2`, `m4`
    /// or `m8`, letter for letter.
    pub open spec fn named_by(word: Seq<char>) -> Option<BayerMatrixOption> {
        if word.len() == 2 && word[0] == 'm' && word[1] == '2' {
            Some(BayerMatrixOption::M2)
        } else if word.len() == 2 && word[0] == 'm' && word[1] == '4' {
            Some(BayerMatrixOption::M4)
        } else if word.len() == 2 && word[0] == 'm' && word[1] == '8' {
            Some(BayerMatrixOption::M8)
        } else {
            None
        }
    }

    /// Reads a matrix from a word that is already in lower case.
    pub fn from_lowercase(word: &str) -> (choice: Result<BayerMatrixOption, BayerMatrixParseError>)
        ensures
            choice == match BayerMatrixOption::named_by(word@) {
                Some(option) => Ok::<BayerMatrixOption, BayerMatrixParseError>(option),
                None => Err(BayerMatrixParseError),
            },
    {
        let word = word.to_owned();
        proof {
            reveal_strlit("m2");
            reveal_strlit("m4");
            reveal_strlit("m8");
            if BayerMatrixOption::named_by(word@) == Some(BayerMatrixOption::M2) {
                assert(word@ =~= "m2"@);
            }
            if BayerMatrixOption::named_by(word@) == Some(BayerMatrixOption::M4) {
                assert(word@ =~= "m4"@);
            }
            if BayerMatrixOption::named_by(word@) == Some(BayerMatrixOption::M8) {
                assert(word@ =~= "m8"@);
            }
        }
        if word == "m2".to_owned() {
            Ok(BayerMatrixOption::M2)
        } else if word == "m4".to_owned() {
            Ok(BayerMatrixOption::M4)
        } else if word == "m8".to_owned() {
            Ok(BayerMatrixOption::M8)
        } else {
            Err(BayerMatrixParseError)
        }
    }

    /// Reads a matrix from text, whatever the case of its letters.
    pub fn from_str(input: &str) -> (choice: Result<BayerMatrixOption, BayerMatrixParseError>)
        ensures
            choice == match BayerMatrixOption::named_by(lowercase_of(input@)) {
                Some(option) => Ok::<BayerMatrixOption, BayerMatrixParseError>(option),
                None => Err(BayerMatrixParseError),
            },
    {
        let lowered = input.to_lowercase();
        BayerMatrixOption::from_lowercase(lowered.as_str())
    }
}

impl BayerMatrixParseError {
    /// What to tell the user.
    pub fn message(&self) -> (text: String)
        ensures
            text@ == "Invalid Bayer Matrix option. Choose from: m2, m4, m8."@,
    {
        "Invalid Bayer Matrix option. Choose from: m2, m4, m8.".to_owned()
    }
}

} // verus!
