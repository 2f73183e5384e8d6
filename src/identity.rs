use vstd::prelude::*;

use std::str::FromStr;

use crate::codec::{bytes_of_hex, decode_hex_field, encode_hex, hex_of, is_hex};
use crate::error::{has_context, SdkError};
use crate::session::establish_accepts;

verus! {

/// Whether `phrase` parses as a BIP-39 mnemonic (known words, valid checksum).
pub uninterp spec fn is_mnemonic(phrase: Seq<char>) -> bool;

/// The 64-byte BIP-39 seed of a valid phrase, with the empty passphrase.
pub uninterp spec fn seed_of(phrase: Seq<char>) -> Seq<u8>;

/// Relies on bip39: `Mnemonic::from_str` succeeds exactly on the valid
/// phrases, and `Mnemonic::to_seed("")` of the parsed phrase is its 64-byte
/// seed, which depends on the phrase alone.  The parse error is rendered by
/// its `Display`.
#[verifier::external_body]
fn phrase_seed(phrase: &str) -> (r: Result<Vec<u8>, String>)
    ensures
        r is Ok <==> is_mnemonic(phrase@),
        r is Ok ==> r->Ok_0@ == seed_of(phrase@) && r->Ok_0@.len() == 64,
{
    match bip39::Mnemonic::from_str(phrase) {
        Ok(m) => Ok(m.to_seed("").to_vec()),
        Err(e) => Err(e.to_string()),
    }
}

/// Length in bytes of the node secret taken from the seed.
pub const SECRET_LEN: usize = 32;

/// The secret of the identity of `phrase`: the first `SECRET_LEN` bytes of
/// its seed.
pub open spec fn identity_secret(phrase: Seq<char>) -> Seq<u8> {
    seed_of(phrase).subrange(0, SECRET_LEN as int)
}

/// The signing identity of a node: the first bytes of the seed of its
/// recovery phrase.  It is never persisted and has no `Debug`.
pub struct Identity {
    secret: Vec<u8>,
}

impl Identity {
    pub closed spec fn secret_view(&self) -> Seq<u8> {
        self.secret@
    }

    /// Derives the identity of a recovery phrase: the first `SECRET_LEN`
    /// bytes of its seed.  A phrase that does not parse is an
    /// `InvalidArgument` error.
    pub fn from_phrase(phrase: &str) -> (r: Result<Identity, SdkError>)
        ensures
            r is Ok <==> is_mnemonic(phrase@),
            r is Ok ==> r->Ok_0.secret_view() == identity_secret(phrase@),
            r is Err ==> r->Err_0.is_invalid_argument() && has_context(
                r->Err_0.message(),
                "failed to parse mnemonic"@,
            ),
    {
        match phrase_seed(phrase) {
            Err(cause) => Err(SdkError::invalid_arg("failed to parse mnemonic", cause.as_str())),
            Ok(seed) => {
                let mut secret: Vec<u8> = Vec::new();
                let mut i: usize = 0;
                while i < SECRET_LEN
                    invariant
                        i <= SECRET_LEN,
                        seed@.len() == 64,
                        secret@ == seed@.subrange(0, i as int),
                    decreases SECRET_LEN - i,
                {
                    secret.push(seed[i]);
                    i = i + 1;
                }
                assert(secret@ == identity_secret(phrase@));
                Ok(Identity { secret })
            },
        }
    }

    /// The secret bytes, for the signer and the scheduler.
    pub fn secret(&self) -> (r: &Vec<u8>)
        ensures
            r@ == self.secret_view(),
    {
        &self.secret
    }
}

/// Device credentials as handed to the host: the hex text of the blob that
/// the scheduler issued.
#[derive(Clone, Debug)]
pub struct GreenlightCredentials {
    pub gl_creds: String,
}

impl GreenlightCredentials {
    /// Credentials for the blob `creds` that recovery or registration returned.
    pub fn from_creds(creds: &[u8]) -> (r: GreenlightCredentials)
        ensures
            r.gl_creds@ == hex_of(creds@),
    {
        GreenlightCredentials { gl_creds: encode_hex(creds) }
    }

    /// The blob these credentials stand for.  Text that is not hex is an
    /// `InvalidArgument` error.
    pub fn decode(&self) -> (r: Result<Vec<u8>, SdkError>)
        ensures
            is_hex(self.gl_creds@) ==> r is Ok && r->Ok_0@ == bytes_of_hex(self.gl_creds@),
            !is_hex(self.gl_creds@) ==> r is Err && r->Err_0.is_invalid_argument() && has_context(
                r->Err_0.message(),
                "failed to decode credentials"@,
            ),
    {
        decode_hex_field(self.gl_creds.as_str(), "failed to decode credentials")
    }
}

/// The scheduling service, as the library sees it.  Each call is a remote
/// challenge for the node of `identity`; on success it returns the device
/// credentials blob, on failure the rendered cause chain.
pub trait SchedulerGateway {
    fn recover(&mut self, identity: &Identity) -> Result<Vec<u8>, String>;

    fn register(&mut self, identity: &Identity, invite_code: &str) -> Result<Vec<u8>, String>;
}

/// What a recovery or registration outcome gives the host: the credentials
/// of the blob, or a `GreenlightApi` error with the scheduler's message.
pub fn credentials_from_outcome(outcome: Result<Vec<u8>, String>) -> (r: Result<
    GreenlightCredentials,
    SdkError,
>)
    ensures
        outcome is Ok ==> r is Ok && r->Ok_0.gl_creds@ == hex_of(outcome->Ok_0@),
        outcome is Err ==> r is Err && r->Err_0.is_greenlight_api() && r->Err_0.message()
            == outcome->Err_0@,
{
    match outcome {
        Ok(blob) => Ok(GreenlightCredentials::from_creds(blob.as_slice())),
        Err(m) => Err(SdkError::GreenlightApi(m)),
    }
}

/// Recovers the credentials of the node of `mnemonic`.  A phrase that does
/// not parse fails with `InvalidArgument` before the scheduler is asked.
pub fn recover<G: SchedulerGateway>(mnemonic: String, gateway: &mut G) -> (r: Result<
    GreenlightCredentials,
    SdkError,
>)
    ensures
        !is_mnemonic(mnemonic@) ==> r is Err && r->Err_0.is_invalid_argument() && has_context(
            r->Err_0.message(),
            "failed to parse mnemonic"@,
        ) && *final(gateway) == *old(gateway),
        is_mnemonic(mnemonic@) ==> r is Ok || r->Err_0.is_greenlight_api(),
        r is Ok ==> establish_accepts(mnemonic@, r->Ok_0.gl_creds@),
{
    let identity = match Identity::from_phrase(mnemonic.as_str()) {
        Ok(id) => id,
        Err(e) => return Err(e),
    };
    let outcome = gateway.recover(&identity);
    let r = credentials_from_outcome(outcome);
    proof {
        if r is Ok {
            crate::codec::lemma_bytes_round_trip(outcome->Ok_0@);
        }
    }
    r
}

/// Registers the node of `mnemonic` with a one-time invite code.  Fails as
/// `recover` does.
pub fn register<G: SchedulerGateway>(mnemonic: String, invite_code: String, gateway: &mut G) -> (r:
    Result<GreenlightCredentials, SdkError>)
    ensures
        !is_mnemonic(mnemonic@) ==> r is Err && r->Err_0.is_invalid_argument() && has_context(
            r->Err_0.message(),
            "failed to parse mnemonic"@,
        ) && *final(gateway) == *old(gateway),
        is_mnemonic(mnemonic@) ==> r is Ok || r->Err_0.is_greenlight_api(),
        r is Ok ==> establish_accepts(mnemonic@, r->Ok_0.gl_creds@),
{
    let identity = match Identity::from_phrase(mnemonic.as_str()) {
        Ok(id) => id,
        Err(e) => return Err(e),
    };
    let outcome = gateway.register(&identity, invite_code.as_str());
    let r = credentials_from_outcome(outcome);
    proof {
        if r is Ok {
            crate::codec::lemma_bytes_round_trip(outcome->Ok_0@);
        }
    }
    r
}

} // verus!
