use vstd::prelude::*;

use crate::bytes::push_all;
use crate::error::CcError;
use crate::tdx::Tdx;

verus! {

/// The bytes that the standard, padded base64 text `s` encodes; `None` when `s` is
/// not valid base64.
pub uninterp spec fn base64_decoded(s: Seq<char>) -> Option<Seq<u8>>;

/// The standard, padded base64 text of `b`.
pub uninterp spec fn base64_encoded(b: Seq<u8>) -> Seq<char>;

/// The SHA-512 digest of `b`.
pub uninterp spec fn sha512_of(b: Seq<u8>) -> Seq<u8>;

/// Relies on `base64::decode` (standard alphabet with padding): the decoded bytes,
/// or an error exactly when the text is not valid base64.
#[verifier::external_body]
#[allow(deprecated)]
fn decode_base64(s: &str) -> (r: Option<Vec<u8>>)
    ensures
        match r {
            Some(v) => base64_decoded(s@) == Some(v@),
            None => base64_decoded(s@) is None,
        },
{
    base64::decode(s).ok()
}

/// Relies on `base64::encode` (standard alphabet with padding).
#[verifier::external_body]
#[allow(deprecated)]
fn encode_base64(b: &[u8]) -> (r: String)
    ensures
        r@ == base64_encoded(b@),
{
    base64::encode(b)
}

/// Relies on `sha2::Sha512::digest`: the SHA-512 digest of `b`, which is 64 bytes long.
#[verifier::external_body]
fn sha512(b: &[u8]) -> (r: Vec<u8>)
    ensures
        r@ == sha512_of(b@),
        r@.len() == 64,
{
    <sha2::Sha512 as sha2::Digest>::digest(b).to_vec()
}

/// The view of an optional string.
pub open spec fn opt_str_view(s: Option<&str>) -> Option<Seq<char>> {
    match s {
        Some(t) => Some(t@),
        None => None,
    }
}

/// The user bytes that `data` contributes: none when it is absent or empty, else
/// its base64 decoding.
pub open spec fn user_bytes(data: Option<Seq<char>>) -> Option<Seq<u8>> {
    match data {
        None => Some(Seq::empty()),
        Some(d) => if d.len() == 0 {
            Some(Seq::empty())
        } else {
            base64_decoded(d)
        },
    }
}

/// The report input data for a base64 `nonce` and optional base64 user `data`:
/// SHA-512 over the decoded nonce followed by the decoded user data.
pub open spec fn report_data_spec(nonce: Seq<char>, data: Option<Seq<char>>) -> Result<
    Seq<u8>,
    CcError,
> {
    match base64_decoded(nonce) {
        None => Err(CcError::Encoding),
        Some(n) => match user_bytes(data) {
            None => Err(CcError::Encoding),
            Some(u) => Ok(sha512_of(n + u)),
        },
    }
}

/// Hashes the concatenation of already decoded nonce and user bytes.
pub fn report_data_from_decoded(nonce: &[u8], user: &[u8]) -> (r: Vec<u8>)
    ensures
        r@ == sha512_of(nonce@ + user@),
        r@.len() == 64,
{
    let mut input: Vec<u8> = Vec::new();
    push_all(&mut input, nonce);
    push_all(&mut input, user);
    assert(input@ =~= nonce@ + user@);
    sha512(input.as_slice())
}

/// Derives the 64-byte report input data from a base64 nonce and optional base64
/// user data; fails with `Encoding` when either is not valid base64.
pub fn derive_report_data(nonce: &str, data: Option<&str>) -> (r: Result<Vec<u8>, CcError>)
    ensures
        match report_data_spec(nonce@, opt_str_view(data)) {
            Ok(v) => r matches Ok(x) && x@ == v && x@.len() == 64,
            Err(e) => r matches Err(x) && x == e,
        },
{
    let n = match decode_base64(nonce) {
        Some(v) => v,
        None => {
            return Err(CcError::Encoding);
        },
    };
    let user: Vec<u8> = match data {
        None => Vec::new(),
        Some(d) => {
            if d.is_empty() {
                Vec::new()
            } else {
                match decode_base64(d) {
                    Some(v) => v,
                    None => {
                        return Err(CcError::Encoding);
                    },
                }
            }
        },
    };
    proof {
        assert(user@ == user_bytes(opt_str_view(data))->Some_0) by {
            if let Some(d) = data {
                if d@.len() == 0 {
                    assert(user@ =~= Seq::<u8>::empty());
                }
            } else {
                assert(user@ =~= Seq::<u8>::empty());
            }
        }
    }
    Ok(report_data_from_decoded(n.as_slice(), user.as_slice()))
}

impl Tdx {
    /// The report input data for `nonce` and `data`, base64 encoded.
    pub fn generate_tdx_report_data(nonce: String, data: Option<String>) -> (r: Result<
        String,
        CcError,
    >)
        ensures
            match report_data_spec(
                nonce@,
                match data {
                    Some(d) => Some(d@),
                    None => None,
                },
            ) {
                Ok(v) => r matches Ok(s) && s@ == base64_encoded(v),
                Err(e) => r matches Err(x) && x == e,
            },
    {
        let d: Option<&str> = match &data {
            Some(s) => Some(s.as_str()),
            None => None,
        };
        match derive_report_data(nonce.as_str(), d) {
            Ok(v) => Ok(encode_base64(v.as_slice())),
            Err(e) => Err(e),
        }
    }
}

/// The report input data depends on the nonce and the user data alone: equal
/// inputs give equal results.
pub proof fn lemma_report_data_deterministic(
    nonce1: Seq<char>,
    data1: Option<Seq<char>>,
    nonce2: Seq<char>,
    data2: Option<Seq<char>>,
)
    requires
        nonce1 == nonce2,
        data1 == data2,
    ensures
        report_data_spec(nonce1, data1) == report_data_spec(nonce2, data2),
{
}

/// Without user data the report input data is SHA-512 over the decoded nonce
/// followed by nothing.
pub proof fn lemma_report_data_without_user_data(nonce: Seq<char>)
    requires
        base64_decoded(nonce) is Some,
    ensures
        report_data_spec(nonce, None) == Ok::<Seq<u8>, CcError>(
            sha512_of(base64_decoded(nonce)->Some_0 + Seq::<u8>::empty()),
        ),
        report_data_spec(nonce, None) == report_data_spec(nonce, Some(Seq::<char>::empty())),
{
}

/// A nonce that is not valid base64 is rejected with `Encoding`, whatever the user data.
pub proof fn lemma_invalid_nonce_rejected(nonce: Seq<char>, data: Option<Seq<char>>)
    requires
        base64_decoded(nonce) is None,
    ensures
        report_data_spec(nonce, data) == Err::<Seq<u8>, CcError>(CcError::Encoding),
{
}

} // verus!
