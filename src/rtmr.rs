use vstd::prelude::*;

use crate::bytes::copy_range;
use crate::error::CcError;
use crate::tcg::{is_registered_algorithm, is_valid_algorithm, TcgDigest, TcgDigestView};

verus! {

/// Largest index of a TDX runtime measurement register.
pub const TDX_RTMR_MAX_INDEX: u8 = 3;

/// Length of an RTMR digest (SHA-384).
pub const TDX_RTMR_DIGEST_LEN: usize = 48;

/// A measurement register: its index and the digest it holds.
pub trait TcgIMR {
    /// Largest valid register index.
    spec fn max_index_view() -> u8;

    /// The register's index.
    spec fn index_view(&self) -> u8;

    /// The register's digest.
    spec fn digest_view(&self) -> TcgDigestView;

    /// Largest valid register index.
    fn max_index() -> (r: u8)
        ensures
            r == Self::max_index_view(),
    ;

    /// The register's index.
    fn get_index(&self) -> (r: u8)
        ensures
            r == self.index_view(),
    ;

    /// The register's digest.
    fn get_tcg_digest(&self) -> (r: TcgDigest)
        ensures
            r@ == self.digest_view(),
    ;
}

/// Why `(index, algo_id)` cannot name a TDX RTMR, if it cannot: the index is
/// checked before the algorithm.
pub open spec fn rtmr_error(index: u8, algo_id: u16) -> Option<CcError> {
    if index > TDX_RTMR_MAX_INDEX {
        Some(CcError::IndexOutOfRange)
    } else if !is_registered_algorithm(algo_id) {
        Some(CcError::UnknownAlgorithm)
    } else {
        None
    }
}

/// A TDX runtime measurement register value.
#[derive(Debug)]
pub struct TdxRTMR {
    pub index: u8,
    pub digest: TcgDigest,
}

impl TdxRTMR {
    /// Whether `index` is at most the largest RTMR index.
    pub fn is_valid_index(index: u8) -> (r: Result<bool, CcError>)
        ensures
            index <= TDX_RTMR_MAX_INDEX ==> r == Ok::<bool, CcError>(true),
            index > TDX_RTMR_MAX_INDEX ==> r == Err::<bool, CcError>(CcError::IndexOutOfRange),
    {
        if index > TDX_RTMR_MAX_INDEX {
            return Err(CcError::IndexOutOfRange);
        }
        Ok(true)
    }

    /// Whether `algo_id` is in the algorithm registry.
    pub fn is_valid_algo(algo_id: u16) -> (r: Result<bool, CcError>)
        ensures
            is_registered_algorithm(algo_id) ==> r == Ok::<bool, CcError>(true),
            !is_registered_algorithm(algo_id) ==> r == Err::<bool, CcError>(
                CcError::UnknownAlgorithm,
            ),
    {
        if is_valid_algorithm(algo_id) {
            Ok(true)
        } else {
            Err(CcError::UnknownAlgorithm)
        }
    }

    /// Builds register `index` holding `digest` under `algo_id`; fails with
    /// `IndexOutOfRange` above index 3, else with `UnknownAlgorithm` for an
    /// unregistered algorithm.
    pub fn new(index: u8, algo_id: u16, digest: &[u8]) -> (r: Result<TdxRTMR, CcError>)
        requires
            digest@.len() == TDX_RTMR_DIGEST_LEN,
        ensures
            match rtmr_error(index, algo_id) {
                Some(e) => r matches Err(x) && x == e,
                None => r matches Ok(m) && m.index == index && m.digest@ == (TcgDigestView {
                    algo_id,
                    hash: digest@,
                }),
            },
    {
        if let Err(e) = TdxRTMR::is_valid_index(index) {
            return Err(e);
        }
        if let Err(e) = TdxRTMR::is_valid_algo(algo_id) {
            return Err(e);
        }
        let hash = copy_range(digest, 0, TDX_RTMR_DIGEST_LEN);
        assert(hash@ =~= digest@);
        Ok(TdxRTMR { index, digest: TcgDigest { algo_id, hash } })
    }
}

impl TcgIMR for TdxRTMR {
    open spec fn max_index_view() -> u8 {
        TDX_RTMR_MAX_INDEX
    }

    open spec fn index_view(&self) -> u8 {
        self.index
    }

    open spec fn digest_view(&self) -> TcgDigestView {
        self.digest@
    }

    fn max_index() -> u8 {
        TDX_RTMR_MAX_INDEX
    }

    fn get_index(&self) -> u8 {
        self.index
    }

    fn get_tcg_digest(&self) -> TcgDigest {
        self.digest.duplicate()
    }
}

/// A register is built exactly when its index is at most 3 and its algorithm is
/// registered; index 4 is out of range whatever the algorithm.
pub proof fn lemma_rtmr_validation(index: u8, algo_id: u16)
    ensures
        rtmr_error(index, algo_id) is None <==> (index <= 3 && is_registered_algorithm(algo_id)),
        index == 4 ==> rtmr_error(index, algo_id) == Some(CcError::IndexOutOfRange),
        index <= 3 && !is_registered_algorithm(algo_id) ==> rtmr_error(index, algo_id) == Some(
            CcError::UnknownAlgorithm,
        ),
        !is_registered_algorithm(0xFF),
{
}

} // verus!
