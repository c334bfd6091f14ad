//! Checking the parameters of a run before any key is made, and wording
//! what was found wrong with them.

use crate::params::{
    ConfigError, LmotsTypeId, LmsTypeId, ParamField, MAX_TESTS, MIN_TESTS, resolve, resolve_spec,
    valid_hash_output_size, valid_tree_height, valid_winternitz_width,
};
use crate::sampler::leaf_count;
use crate::text::{append_decimal, decimal};
use vstd::arithmetic::power2::{lemma2_to64, pow2};
use vstd::prelude::*;
use vstd::string::StringSliceAdditionalSpecFns;

verus! {

/// The text that every test vector of a fixture signs.
pub const MESSAGE: &'static str = "this is the message I want signed";

/// The parameters of a run that passed every check, with the identifiers
/// that they resolve to.
#[derive(Clone, Copy, Debug, PartialEq, Eq, Structural)]
pub struct Config {
    pub hash_output_size: u8,
    pub winternitz_width: u8,
    pub tree_height: u8,
    pub tests: u32,
    pub lms_type: LmsTypeId,
    pub lmots_type: LmotsTypeId,
}

impl Config {
    /// The parameters are of their enumerations, the identifiers are those
    /// that the parameters resolve to, and the number of test vectors is in
    /// range.
    pub open spec fn valid(self) -> bool {
        &&& resolve_spec(self.hash_output_size, self.winternitz_width, self.tree_height)
            matches Ok(ids) && ids == (self.lms_type, self.lmots_type)
        &&& MIN_TESTS <= self.tests <= MAX_TESTS
    }

    pub open spec fn self_check_spec(self) -> bool {
        self.hash_output_size == 24
    }

    /// Whether each signature is verified again before it is accepted: so
    /// it is for the hash output size of 24 bytes, and for no other.
    #[verifier::when_used_as_spec(self_check_spec)]
    pub fn self_check(self) -> (check: bool)
        ensures
            check == self.self_check_spec(),
    {
        self.hash_output_size == 24
    }
}

/// What validation yields. The parameters are looked at in this order: tree
/// height, hash output size, Winternitz width, then the number of test
/// vectors against its range and against the number of leaves; the first
/// that fails is reported.
pub open spec fn validate_spec(n: u8, w: u8, h: u8, tests: u32) -> Result<Config, ConfigError> {
    match resolve_spec(n, w, h) {
        Err(e) => Err(e),
        Ok((lms_type, lmots_type)) => {
            if tests < MIN_TESTS || tests > MAX_TESTS {
                Err(ConfigError::TestCountOutOfRange { tests })
            } else if tests > pow2(h as nat) {
                Err(ConfigError::TooManyTests { tests, tree_height: h })
            } else {
                Ok(
                    Config {
                        hash_output_size: n,
                        winternitz_width: w,
                        tree_height: h,
                        tests,
                        lms_type,
                        lmots_type,
                    },
                )
            }
        },
    }
}

/// Checks hash output size `n`, Winternitz width `w`, tree height `h` and
/// the number of test vectors, and resolves the identifiers.
pub fn validate(n: u8, w: u8, h: u8, tests: u32) -> (r: Result<Config, ConfigError>)
    ensures
        r == validate_spec(n, w, h, tests),
        r matches Ok(config) ==> config.valid(),
{
    match resolve(n, w, h) {
        Err(e) => Err(e),
        Ok((lms_type, lmots_type)) => {
            if tests < MIN_TESTS || tests > MAX_TESTS {
                Err(ConfigError::TestCountOutOfRange { tests })
            } else if tests > leaf_count(h) {
                Err(ConfigError::TooManyTests { tests, tree_height: h })
            } else {
                Ok(
                    Config {
                        hash_output_size: n,
                        winternitz_width: w,
                        tree_height: h,
                        tests,
                        lms_type,
                        lmots_type,
                    },
                )
            }
        },
    }
}

/// Validation accepts exactly the triples of the enumerations with a number
/// of test vectors in range: with such a number every tree has leaves
/// enough.
pub proof fn lemma_validate_accepts(n: u8, w: u8, h: u8, tests: u32)
    ensures
        validate_spec(n, w, h, tests).is_ok() <==> valid_hash_output_size(n)
            && valid_winternitz_width(w) && valid_tree_height(h) && MIN_TESTS <= tests
            <= MAX_TESTS,
{
    lemma2_to64();
}

impl ConfigError {
    /// The words in which the error is reported.
    pub open spec fn message_text(self) -> Seq<char> {
        match self {
            ConfigError::InvalidParameter { field: ParamField::TreeHeight, value } => {
                "Invalid tree height: "@ + decimal(value as nat)
                    + " expected one of 5, 10, 15, 20"@
            },
            ConfigError::InvalidParameter { field: ParamField::HashOutputSize, value } => {
                "Invalid N: "@ + decimal(value as nat) + " expected one of 32 or 24"@
            },
            ConfigError::InvalidParameter { field: ParamField::WinternitzWidth, value } => {
                "Invalid W: "@ + decimal(value as nat) + " expected one of 1, 2, 4, 8"@
            },
            ConfigError::TestCountOutOfRange { tests } => {
                "Invalid number of tests: "@ + decimal(tests as nat)
                    + " expected a number between 1 and 16"@
            },
            ConfigError::TooManyTests { tests, tree_height } => {
                "Can't create "@ + decimal(tests as nat) + " tests with a tree height of "@
                    + decimal(tree_height as nat)
            },
        }
    }

    /// Words the error for the user.
    pub fn message(&self) -> (text: String)
        ensures
            text@ == self.message_text(),
    {
        let mut text = String::new();
        match *self {
            ConfigError::InvalidParameter { field: ParamField::TreeHeight, value } => {
                text.append("Invalid tree height: ");
                append_decimal(&mut text, value as u64);
                text.append(" expected one of 5, 10, 15, 20");
            },
            ConfigError::InvalidParameter { field: ParamField::HashOutputSize, value } => {
                text.append("Invalid N: ");
                append_decimal(&mut text, value as u64);
                text.append(" expected one of 32 or 24");
            },
            ConfigError::InvalidParameter { field: ParamField::WinternitzWidth, value } => {
                text.append("Invalid W: ");
                append_decimal(&mut text, value as u64);
                text.append(" expected one of 1, 2, 4, 8");
            },
            ConfigError::TestCountOutOfRange { tests } => {
                text.append("Invalid number of tests: ");
                append_decimal(&mut text, tests as u64);
                text.append(" expected a number between 1 and 16");
            },
            ConfigError::TooManyTests { tests, tree_height } => {
                text.append("Can't create ");
                append_decimal(&mut text, tests as u64);
                text.append(" tests with a tree height of ");
                append_decimal(&mut text, tree_height as u64);
            },
        }
        assert(text@ =~= self.message_text());
        text
    }
}

/// The bytes of the signed message.
pub fn message_bytes() -> (bytes: Vec<u8>)
    ensures
        bytes@ == MESSAGE.spec_bytes(),
{
    MESSAGE.as_bytes_vec()
}

} // verus!
