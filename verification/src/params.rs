//! The tunable parameters of a run and the algorithm identifiers they select.

use vstd::prelude::*;

verus! {

/// Identifier of a Merkle-tree configuration: hash output size and height.
#[derive(Clone, Copy, Debug, PartialEq, Eq, Structural)]
pub enum LmsTypeId {
    LmsSha256N32H5,
    LmsSha256N32H10,
    LmsSha256N32H15,
    LmsSha256N32H20,
    LmsSha256N24H5,
    LmsSha256N24H10,
    LmsSha256N24H15,
    LmsSha256N24H20,
}

/// Identifier of a one-time-signature configuration: hash output size and
/// Winternitz width.
#[derive(Clone, Copy, Debug, PartialEq, Eq, Structural)]
pub enum LmotsTypeId {
    LmotsSha256N32W1,
    LmotsSha256N32W2,
    LmotsSha256N32W4,
    LmotsSha256N32W8,
    LmotsSha256N24W1,
    LmotsSha256N24W2,
    LmotsSha256N24W4,
    LmotsSha256N24W8,
}

/// The parameter that a configuration error speaks of.
#[derive(Clone, Copy, Debug, PartialEq, Eq, Structural)]
pub enum ParamField {
    HashOutputSize,
    WinternitzWidth,
    TreeHeight,
}

/// Why a configuration was turned down.
#[derive(Clone, Copy, Debug, PartialEq, Eq, Structural)]
pub enum ConfigError {
    /// A parameter has a value outside its enumeration.
    InvalidParameter { field: ParamField, value: u8 },
    /// The number of test vectors is outside the accepted range.
    TestCountOutOfRange { tests: u32 },
    /// More test vectors were asked for than the tree has leaves, or none.
    TooManyTests { tests: u32, tree_height: u8 },
}

/// Smallest and largest number of test vectors in one batch.
pub const MIN_TESTS: u32 = 1;

pub const MAX_TESTS: u32 = 16;

pub open spec fn valid_hash_output_size(n: u8) -> bool {
    n == 24 || n == 32
}

pub open spec fn valid_winternitz_width(w: u8) -> bool {
    w == 1 || w == 2 || w == 4 || w == 8
}

pub open spec fn valid_tree_height(h: u8) -> bool {
    h == 5 || h == 10 || h == 15 || h == 20
}

/// The table from hash output size and tree height to the tree identifier.
pub open spec fn lms_type_for(n: u8, h: u8) -> Option<LmsTypeId> {
    match (n, h) {
        (32, 5) => Some(LmsTypeId::LmsSha256N32H5),
        (32, 10) => Some(LmsTypeId::LmsSha256N32H10),
        (32, 15) => Some(LmsTypeId::LmsSha256N32H15),
        (32, 20) => Some(LmsTypeId::LmsSha256N32H20),
        (24, 5) => Some(LmsTypeId::LmsSha256N24H5),
        (24, 10) => Some(LmsTypeId::LmsSha256N24H10),
        (24, 15) => Some(LmsTypeId::LmsSha256N24H15),
        (24, 20) => Some(LmsTypeId::LmsSha256N24H20),
        _ => None,
    }
}

/// The table from hash output size and Winternitz width to the
/// one-time-signature identifier.
pub open spec fn lmots_type_for(n: u8, w: u8) -> Option<LmotsTypeId> {
    match (n, w) {
        (32, 1) => Some(LmotsTypeId::LmotsSha256N32W1),
        (32, 2) => Some(LmotsTypeId::LmotsSha256N32W2),
        (32, 4) => Some(LmotsTypeId::LmotsSha256N32W4),
        (32, 8) => Some(LmotsTypeId::LmotsSha256N32W8),
        (24, 1) => Some(LmotsTypeId::LmotsSha256N24W1),
        (24, 2) => Some(LmotsTypeId::LmotsSha256N24W2),
        (24, 4) => Some(LmotsTypeId::LmotsSha256N24W4),
        (24, 8) => Some(LmotsTypeId::LmotsSha256N24W8),
        _ => None,
    }
}

/// What resolution yields: the pair of identifiers for a valid triple, and
/// for an invalid one the first offending parameter, the tree height being
/// looked at first, then the hash output size, then the width.
pub open spec fn resolve_spec(n: u8, w: u8, h: u8) -> Result<(LmsTypeId, LmotsTypeId), ConfigError> {
    if !valid_tree_height(h) {
        Err(ConfigError::InvalidParameter { field: ParamField::TreeHeight, value: h })
    } else if !valid_hash_output_size(n) {
        Err(ConfigError::InvalidParameter { field: ParamField::HashOutputSize, value: n })
    } else if !valid_winternitz_width(w) {
        Err(ConfigError::InvalidParameter { field: ParamField::WinternitzWidth, value: w })
    } else {
        Ok((lms_type_for(n, h).unwrap(), lmots_type_for(n, w).unwrap()))
    }
}

impl LmsTypeId {
    /// Looks the identifier up by hash output size and tree height.
    pub fn lookup(n: u8, h: u8) -> (id: Option<LmsTypeId>)
        ensures
            id == lms_type_for(n, h),
    {
        match (n, h) {
            (32, 5) => Some(LmsTypeId::LmsSha256N32H5),
            (32, 10) => Some(LmsTypeId::LmsSha256N32H10),
            (32, 15) => Some(LmsTypeId::LmsSha256N32H15),
            (32, 20) => Some(LmsTypeId::LmsSha256N32H20),
            (24, 5) => Some(LmsTypeId::LmsSha256N24H5),
            (24, 10) => Some(LmsTypeId::LmsSha256N24H10),
            (24, 15) => Some(LmsTypeId::LmsSha256N24H15),
            (24, 20) => Some(LmsTypeId::LmsSha256N24H20),
            _ => None,
        }
    }

    pub open spec fn hash_output_size_spec(self) -> u8 {
        match self {
            LmsTypeId::LmsSha256N32H5
            | LmsTypeId::LmsSha256N32H10
            | LmsTypeId::LmsSha256N32H15
            | LmsTypeId::LmsSha256N32H20 => 32,
            _ => 24,
        }
    }

    pub open spec fn tree_height_spec(self) -> u8 {
        match self {
            LmsTypeId::LmsSha256N32H5 | LmsTypeId::LmsSha256N24H5 => 5,
            LmsTypeId::LmsSha256N32H10 | LmsTypeId::LmsSha256N24H10 => 10,
            LmsTypeId::LmsSha256N32H15 | LmsTypeId::LmsSha256N24H15 => 15,
            _ => 20,
        }
    }

    /// The hash output size, in bytes, that the identifier stands for.
    #[verifier::when_used_as_spec(hash_output_size_spec)]
    pub fn hash_output_size(self) -> (n: u8)
        ensures
            n == self.hash_output_size_spec(),
    {
        match self {
            LmsTypeId::LmsSha256N32H5
            | LmsTypeId::LmsSha256N32H10
            | LmsTypeId::LmsSha256N32H15
            | LmsTypeId::LmsSha256N32H20 => 32,
            _ => 24,
        }
    }

    /// The tree height that the identifier stands for.
    #[verifier::when_used_as_spec(tree_height_spec)]
    pub fn tree_height(self) -> (h: u8)
        ensures
            h == self.tree_height_spec(),
    {
        match self {
            LmsTypeId::LmsSha256N32H5 | LmsTypeId::LmsSha256N24H5 => 5,
            LmsTypeId::LmsSha256N32H10 | LmsTypeId::LmsSha256N24H10 => 10,
            LmsTypeId::LmsSha256N32H15 | LmsTypeId::LmsSha256N24H15 => 15,
            _ => 20,
        }
    }
}

impl LmotsTypeId {
    /// Looks the identifier up by hash output size and Winternitz width.
    pub fn lookup(n: u8, w: u8) -> (id: Option<LmotsTypeId>)
        ensures
            id == lmots_type_for(n, w),
    {
        match (n, w) {
            (32, 1) => Some(LmotsTypeId::LmotsSha256N32W1),
            (32, 2) => Some(LmotsTypeId::LmotsSha256N32W2),
            (32, 4) => Some(LmotsTypeId::LmotsSha256N32W4),
            (32, 8) => Some(LmotsTypeId::LmotsSha256N32W8),
            (24, 1) => Some(LmotsTypeId::LmotsSha256N24W1),
            (24, 2) => Some(LmotsTypeId::LmotsSha256N24W2),
            (24, 4) => Some(LmotsTypeId::LmotsSha256N24W4),
            (24, 8) => Some(LmotsTypeId::LmotsSha256N24W8),
            _ => None,
        }
    }

    pub open spec fn hash_output_size_spec(self) -> u8 {
        match self {
            LmotsTypeId::LmotsSha256N32W1
            | LmotsTypeId::LmotsSha256N32W2
            | LmotsTypeId::LmotsSha256N32W4
            | LmotsTypeId::LmotsSha256N32W8 => 32,
            _ => 24,
        }
    }

    pub open spec fn winternitz_width_spec(self) -> u8 {
        match self {
            LmotsTypeId::LmotsSha256N32W1 | LmotsTypeId::LmotsSha256N24W1 => 1,
            LmotsTypeId::LmotsSha256N32W2 | LmotsTypeId::LmotsSha256N24W2 => 2,
            LmotsTypeId::LmotsSha256N32W4 | LmotsTypeId::LmotsSha256N24W4 => 4,
            _ => 8,
        }
    }

    /// The hash output size, in bytes, that the identifier stands for.
    #[verifier::when_used_as_spec(hash_output_size_spec)]
    pub fn hash_output_size(self) -> (n: u8)
        ensures
            n == self.hash_output_size_spec(),
    {
        match self {
            LmotsTypeId::LmotsSha256N32W1
            | LmotsTypeId::LmotsSha256N32W2
            | LmotsTypeId::LmotsSha256N32W4
            | LmotsTypeId::LmotsSha256N32W8 => 32,
            _ => 24,
        }
    }

    /// The Winternitz width that the identifier stands for.
    #[verifier::when_used_as_spec(winternitz_width_spec)]
    pub fn winternitz_width(self) -> (w: u8)
        ensures
            w == self.winternitz_width_spec(),
    {
        match self {
            LmotsTypeId::LmotsSha256N32W1 | LmotsTypeId::LmotsSha256N24W1 => 1,
            LmotsTypeId::LmotsSha256N32W2 | LmotsTypeId::LmotsSha256N24W2 => 2,
            LmotsTypeId::LmotsSha256N32W4 | LmotsTypeId::LmotsSha256N24W4 => 4,
            _ => 8,
        }
    }
}

/// Maps hash output size `n`, Winternitz width `w` and tree height `h` to
/// the identifiers of the tree and of its one-time signatures.
pub fn resolve(n: u8, w: u8, h: u8) -> (r: Result<(LmsTypeId, LmotsTypeId), ConfigError>)
    ensures
        r == resolve_spec(n, w, h),
{
    let lms = LmsTypeId::lookup(n, h);
    let lmots = LmotsTypeId::lookup(n, w);
    match (lms, lmots) {
        (Some(lms_id), Some(lmots_id)) => Ok((lms_id, lmots_id)),
        _ => {
            if !(h == 5 || h == 10 || h == 15 || h == 20) {
                Err(ConfigError::InvalidParameter { field: ParamField::TreeHeight, value: h })
            } else if !(n == 24 || n == 32) {
                Err(ConfigError::InvalidParameter { field: ParamField::HashOutputSize, value: n })
            } else {
                Err(ConfigError::InvalidParameter { field: ParamField::WinternitzWidth, value: w })
            }
        },
    }
}

/// Resolution succeeds on exactly the valid triples.
pub proof fn lemma_resolve_total(n: u8, w: u8, h: u8)
    ensures
        resolve_spec(n, w, h).is_ok() <==> valid_hash_output_size(n) && valid_winternitz_width(w)
            && valid_tree_height(h),
{
}

/// The identifiers of a valid triple carry the triple: the tree identifier
/// gives back the hash output size and the height, the one-time-signature
/// identifier the hash output size and the width.
pub proof fn lemma_resolve_carries_parameters(n: u8, w: u8, h: u8)
    requires
        valid_hash_output_size(n),
        valid_winternitz_width(w),
        valid_tree_height(h),
    ensures
        resolve_spec(n, w, h) matches Ok((lms, lmots)) && lms.hash_output_size() == n
            && lms.tree_height() == h && lmots.hash_output_size() == n
            && lmots.winternitz_width() == w,
{
}

/// Two valid triples that resolve to the same pair of identifiers are the
/// same triple.
pub proof fn lemma_resolve_injective(n1: u8, w1: u8, h1: u8, n2: u8, w2: u8, h2: u8)
    requires
        resolve_spec(n1, w1, h1).is_ok(),
        resolve_spec(n1, w1, h1) == resolve_spec(n2, w2, h2),
    ensures
        n1 == n2 && w1 == w2 && h1 == h2,
{
    lemma_resolve_carries_parameters(n1, w1, h1);
    lemma_resolve_carries_parameters(n2, w2, h2);
}

} // verus!
