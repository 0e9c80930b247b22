//! Backup-collection bookkeeping and the export cipher.
//!
//! Exported account data is protected with a keystream cipher over the
//! password followed by a standard text encoding; the cipher itself is
//! verified, the text encoding is a trusted wrapper.

use vstd::prelude::*;

use base64::Engine;
use vstd::string::StringSliceAdditionalSpecFns;
use vstd::utf8::{encode_scalar, encode_utf8, valid_utf8};

verus! {

/// One backup file that could not be restored, and why.
#[derive(Debug)]
pub struct FailedAccountExportedData {
    pub filename: String,
    pub error: String,
}

/// The outcome of restoring a set of exported backup files.
#[derive(Debug)]
pub struct RestoreResult {
    pub restored_count: u32,
    pub failed: Vec<FailedAccountExportedData>,
}

impl RestoreResult {
    /// A fresh tally: nothing restored, nothing failed.
    pub fn new() -> (r: RestoreResult)
        ensures
            r.restored_count == 0,
            r.failed@.len() == 0,
    {
        RestoreResult { restored_count: 0, failed: Vec::new() }
    }

    /// Counts one successfully restored file.
    pub fn record_success(&mut self)
        requires
            old(self).restored_count < u32::MAX,
        ensures
            final(self).restored_count == old(self).restored_count + 1,
            final(self).failed == old(self).failed,
    {
        self.restored_count = self.restored_count + 1;
    }

    /// Records one failed file with its error.
    pub fn record_failure(&mut self, filename: String, error: String)
        ensures
            final(self).restored_count == old(self).restored_count,
            final(self).failed@.len() == old(self).failed@.len() + 1,
            final(self).failed@.last().filename@ == filename@,
            final(self).failed@.last().error@ == error@,
            forall|i: int|
                0 <= i < old(self).failed@.len() ==> final(self).failed@[i] == old(
                    self,
                ).failed@[i],
    {
        self.failed.push(FailedAccountExportedData { filename, error });
    }
}

/// The keystream cipher: each byte combined with the password byte at its
/// position, the password repeating.
pub open spec fn spec_xor_bytes(data: Seq<u8>, pw: Seq<u8>) -> Seq<u8>
    recommends
        pw.len() > 0,
{
    Seq::new(data.len(), |i: int| data[i] ^ pw[i % pw.len() as int])
}

/// Applies the keystream cipher.
pub fn xor_with_password(data: &Vec<u8>, pw: &Vec<u8>) -> (r: Vec<u8>)
    requires
        pw@.len() > 0,
    ensures
        r@ == spec_xor_bytes(data@, pw@),
{
    let mut out: Vec<u8> = Vec::new();
    let n = data.len();
    let m = pw.len();
    let mut i: usize = 0;
    while i < n
        invariant
            n == data@.len(),
            m == pw@.len(),
            m > 0,
            i <= n,
            out@.len() == i,
            forall|j: int| 0 <= j < i ==> out@[j] == data@[j] ^ pw@[j % m as int],
        decreases n - i,
    {
        out.push(data[i] ^ pw[i % m]);
        i = i + 1;
    }
    proof {
        assert(out@ =~= spec_xor_bytes(data@, pw@));
    }
    out
}

/// Law: applying the keystream cipher twice with the same password gives
/// back the original bytes.
pub proof fn lemma_xor_involution(data: Seq<u8>, pw: Seq<u8>)
    requires
        pw.len() > 0,
    ensures
        spec_xor_bytes(spec_xor_bytes(data, pw), pw) =~= data,
{
    assert(forall|x: u8, k: u8| ((x ^ k) ^ k) == x) by (bit_vector);
}

/// The text encoding of a byte sequence used for exported data.
pub uninterp spec fn b64_of(bytes: Seq<u8>) -> Seq<char>;

/// What the text decoder recovers from a text, when the text is a valid
/// encoding.
pub uninterp spec fn b64_decode_of(text: Seq<char>) -> Option<Seq<u8>>;

/// Relies on the base64 STANDARD engine's encode: the encoding is a
/// function of the bytes alone.
#[verifier::external_body]
pub(crate) fn b64_encode(bytes: &Vec<u8>) -> (r: String)
    ensures
        r@ == b64_of(bytes@),
{
    base64::engine::general_purpose::STANDARD.encode(bytes)
}

/// Relies on the base64 STANDARD engine's decode: the outcome is a
/// function of the text alone, and decoding inverts encoding.
#[verifier::external_body]
pub(crate) fn b64_decode(text: &str) -> (r: Result<Vec<u8>, String>)
    ensures
        match r {
            Ok(v) => b64_decode_of(text@) == Some(v@) && (forall|b: Seq<u8>|
                text@ == b64_of(b) ==> v@ == b),
            Err(e) => b64_decode_of(text@) is None && (forall|b: Seq<u8>| text@ != b64_of(b))
                && e@ == "invalid base64 data"@,
        },
{
    match base64::engine::general_purpose::STANDARD.decode(text) {
        Ok(v) => Ok(v),
        Err(_) => Err("invalid base64 data".to_owned()),
    }
}

#[verifier::external_type_specification]
#[verifier::external_body]
pub struct ExFromUtf8Error(std::string::FromUtf8Error);

/// Converts bytes to text exactly when they are valid UTF-8, keeping the
/// bytes (std's documented behaviour of `String::from_utf8`, which vstd
/// does not specify).
pub assume_specification[ String::from_utf8 ](v: Vec<u8>) -> (r: Result<
    String,
    std::string::FromUtf8Error,
>)
    ensures
        r is Ok <==> valid_utf8(v@),
        r matches Ok(s) ==> encode_utf8(s@) == v@,
;

/// Encrypts exported configuration text under a password: the keystream
/// cipher over the text's bytes, then the text encoding. An empty
/// password is rejected.
pub fn encrypt_config_data(json_data: &str, password: &str) -> (r: Result<String, String>)
    ensures
        password@.len() == 0 ==> (r matches Err(e) && e@ == "password must not be empty"@),
        password@.len() != 0 ==> (r matches Ok(s) && s@ == b64_of(
            spec_xor_bytes(json_data.spec_bytes(), password.spec_bytes()),
        )),
{
    if password.unicode_len() == 0 {
        proof {
            assert(password@.len() == 0);
        }
        return Err("password must not be empty".to_owned());
    }
    let data_bytes = json_data.as_bytes_vec();
    let pw_bytes = password.as_bytes_vec();
    proof {
        assert(pw_bytes@.len() > 0) by {
            assert(pw_bytes@ == encode_utf8(password@));
            assert(encode_scalar(password@[0] as u32).len() > 0);
        }
    }
    let cipher = xor_with_password(&data_bytes, &pw_bytes);
    Ok(b64_encode(&cipher))
}

/// Decrypts exported configuration text under a password: decodes the
/// text, reverses the keystream cipher, and checks the result is text.
/// Decrypting what `encrypt_config_data` produced, under the same
/// password, gives back the original text's bytes.
pub fn decrypt_config_data(encrypted_data: &str, password: &str) -> (r: Result<String, String>)
    ensures
        password@.len() == 0 ==> (r matches Err(e) && e@ == "password must not be empty"@),
        password@.len() != 0 ==> match b64_decode_of(encrypted_data@) {
            None => r matches Err(e) && e@ == "invalid base64 data"@,
            Some(bytes) => match r {
                Ok(s) => valid_utf8(spec_xor_bytes(bytes, password.spec_bytes()))
                    && encode_utf8(s@) == spec_xor_bytes(bytes, password.spec_bytes()),
                Err(e) => !valid_utf8(spec_xor_bytes(bytes, password.spec_bytes())) && e@
                    == "decrypted data is not valid text"@,
            },
        },
{
    if password.unicode_len() == 0 {
        proof {
            assert(password@.len() == 0);
        }
        return Err("password must not be empty".to_owned());
    }
    let decoded = match b64_decode(encrypted_data) {
        Ok(v) => v,
        Err(e) => {
            return Err(e);
        },
    };
    let pw_bytes = password.as_bytes_vec();
    proof {
        assert(pw_bytes@.len() > 0) by {
            assert(pw_bytes@ == encode_utf8(password@));
            assert(encode_scalar(password@[0] as u32).len() > 0);
        }
    }
    let plain = xor_with_password(&decoded, &pw_bytes);
    match String::from_utf8(plain) {
        Ok(s) => Ok(s),
        Err(_) => Err("decrypted data is not valid text".to_owned()),
    }
}

} // verus!
