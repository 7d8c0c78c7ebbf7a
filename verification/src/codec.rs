//! Pure transformation logic between the local TEE enumeration plus raw
//! evidence and the remote protocol's wire representation: the TEE-kind
//! mapping, the canonical transport encoding of evidence blobs, and the
//! deterministic construction of runtime data binding a caller's nonce and
//! ephemeral public key into a request.

use vstd::prelude::*;

use base64::Engine;

use crate::error::Error;

verus! {

/// The closed set of local TEE kinds this core accepts evidence from,
/// including the vendor/virtualized variants of SEV-SNP and TDX and the
/// non-hardware sample kind used for testing.
#[derive(Clone, Copy, Debug, PartialEq, Eq, Structural)]
pub enum Tee {
    AzSnpVtpm,
    AzTdxVtpm,
    Cca,
    Csv,
    Sample,
    Sev,
    Sgx,
    Snp,
    Tdx,
}

/// The remote evaluation protocol's TEE enumeration; its wire framing is an
/// external fixed contract, this type carries the chosen kind.
#[derive(Clone, Copy, Debug, PartialEq, Eq, Structural)]
pub enum GrpcTee {
    AzSnpVtpm,
    AzTdxVtpm,
    Cca,
    Csv,
    Sample,
    Sev,
    Sgx,
    Snp,
    Tdx,
}

/// The wire counterpart of each local TEE kind. Total by the exhaustive
/// match: extending [`Tee`] without extending the mapping fails to build.
pub open spec fn grpc_tee_of(tee: Tee) -> GrpcTee {
    match tee {
        Tee::AzSnpVtpm => GrpcTee::AzSnpVtpm,
        Tee::AzTdxVtpm => GrpcTee::AzTdxVtpm,
        Tee::Cca => GrpcTee::Cca,
        Tee::Csv => GrpcTee::Csv,
        Tee::Sample => GrpcTee::Sample,
        Tee::Sev => GrpcTee::Sev,
        Tee::Sgx => GrpcTee::Sgx,
        Tee::Snp => GrpcTee::Snp,
        Tee::Tdx => GrpcTee::Tdx,
    }
}

/// Map a local TEE kind onto its wire counterpart.
pub fn to_grpc_tee(tee: Tee) -> (r: GrpcTee)
    ensures
        r == grpc_tee_of(tee),
{
    match tee {
        Tee::AzSnpVtpm => GrpcTee::AzSnpVtpm,
        Tee::AzTdxVtpm => GrpcTee::AzTdxVtpm,
        Tee::Cca => GrpcTee::Cca,
        Tee::Csv => GrpcTee::Csv,
        Tee::Sample => GrpcTee::Sample,
        Tee::Sev => GrpcTee::Sev,
        Tee::Sgx => GrpcTee::Sgx,
        Tee::Snp => GrpcTee::Snp,
        Tee::Tdx => GrpcTee::Tdx,
    }
}

/// Law: the TEE mapping is injective — no two local kinds collapse onto the
/// same wire kind. Together with the totality of [`grpc_tee_of`] this makes
/// the mapping one-to-one.
pub proof fn lemma_tee_mapping_injective(a: Tee, b: Tee)
    ensures
        grpc_tee_of(a) == grpc_tee_of(b) ==> a == b,
{
}

/// What base64's `URL_SAFE_NO_PAD.encode` returns on the given bytes: the
/// URL-safe, padding-free base64 text of the blob, the canonical transport
/// encoding of evidence.
pub uninterp spec fn b64_of(b: Seq<u8>) -> Seq<char>;

/// Most bytes a blob may hold before the base64 engine's output-size
/// computation could overflow `usize`.
pub const B64_MAX_INPUT: usize = usize::MAX / 4 * 3 - 4;

/// Relies on base64's `URL_SAFE_NO_PAD.encode`. The length bound keeps the
/// engine's output-size computation, which panics on overflow, in range.
#[verifier::external_body]
pub(crate) fn b64url_encode(b: &[u8]) -> (r: String)
    requires
        b@.len() <= B64_MAX_INPUT,
    ensures
        r@ == b64_of(b@),
{
    base64::engine::general_purpose::URL_SAFE_NO_PAD.encode(b)
}

/// Relies on base64's `URL_SAFE_NO_PAD.decode`, the inverse transform: on
/// the encoding of any blob it returns exactly that blob.
#[verifier::external_body]
pub(crate) fn b64url_decode(s: &str) -> (r: Result<Vec<u8>, Error>)
    ensures
        r matches Ok(v) ==> forall|b: Seq<u8>| s@ == #[trigger] b64_of(b) ==> v@ == b,
        r is Err ==> forall|b: Seq<u8>| s@ != #[trigger] b64_of(b),
        r matches Err(e) ==> e == Error::MalformedEvidence,
{
    match base64::engine::general_purpose::URL_SAFE_NO_PAD.decode(s) {
        Ok(v) => Ok(v),
        Err(_) => Err(Error::MalformedEvidence),
    }
}

/// Law: encoding a byte blob with the codec and then decoding with the
/// inverse transform yields the original bytes, for empty and non-empty
/// blobs alike.
pub fn evidence_round_trip(b: &[u8]) -> (r: Vec<u8>)
    requires
        b@.len() <= B64_MAX_INPUT,
    ensures
        r@ == b@,
{
    let s = b64url_encode(b);
    match b64url_decode(s.as_str()) {
        Ok(v) => v,
        Err(_) => {
            proof {
                assert(false);
            }
            Vec::new()
        },
    }
}

/// The lower-case hexadecimal digit of a value below sixteen.
pub open spec fn hex_char(d: u32) -> char {
    if d == 0 {
        '0'
    } else if d == 1 {
        '1'
    } else if d == 2 {
        '2'
    } else if d == 3 {
        '3'
    } else if d == 4 {
        '4'
    } else if d == 5 {
        '5'
    } else if d == 6 {
        '6'
    } else if d == 7 {
        '7'
    } else if d == 8 {
        '8'
    } else if d == 9 {
        '9'
    } else if d == 10 {
        'a'
    } else if d == 11 {
        'b'
    } else if d == 12 {
        'c'
    } else if d == 13 {
        'd'
    } else if d == 14 {
        'e'
    } else {
        'f'
    }
}

/// How one character appears inside a JSON string literal: quote and
/// backslash are escaped, the named control characters take their short
/// escapes, the remaining control characters take `\u00..`, and everything
/// else stands for itself.
pub open spec fn json_escape_char(c: char) -> Seq<char> {
    if c == '"' {
        seq!['\\', '"']
    } else if c == '\\' {
        seq!['\\', '\\']
    } else if c == '\u{08}' {
        seq!['\\', 'b']
    } else if c == '\u{09}' {
        seq!['\\', 't']
    } else if c == '\u{0a}' {
        seq!['\\', 'n']
    } else if c == '\u{0c}' {
        seq!['\\', 'f']
    } else if c == '\u{0d}' {
        seq!['\\', 'r']
    } else if (c as u32) < 32 {
        seq!['\\', 'u', '0', '0', hex_char((c as u32) / 16), hex_char((c as u32) % 16)]
    } else {
        seq![c]
    }
}

/// A whole text as it appears inside a JSON string literal.
pub open spec fn json_escaped(s: Seq<char>) -> Seq<char>
    decreases s.len(),
{
    if s.len() == 0 {
        Seq::empty()
    } else {
        json_escaped(s.drop_last()) + json_escape_char(s.last())
    }
}

/// Append `s`, escaped as a JSON string body, to `out`.
fn append_json_escaped(out: &mut String, s: &str)
    ensures
        final(out)@ == old(out)@ + json_escaped(s@),
{
    let n = s.unicode_len();
    let mut i: usize = 0;
    while i < n
        invariant
            n == s@.len(),
            i <= n,
            out@ == old(out)@ + json_escaped(s@.take(i as int)),
        decreases n - i,
    {
        let c = s.get_char(i);
        let ghost pre = out@;
        if c == '"' {
            out.append("\\\"");
            proof {
                reveal_strlit("\\\"");
                assert(out@ =~= pre + json_escape_char(c));
            }
        } else if c == '\\' {
            out.append("\\\\");
            proof {
                reveal_strlit("\\\\");
                assert(out@ =~= pre + json_escape_char(c));
            }
        } else if c == '\u{08}' {
            out.append("\\b");
            proof {
                reveal_strlit("\\b");
                assert(out@ =~= pre + json_escape_char(c));
            }
        } else if c == '\u{09}' {
            out.append("\\t");
            proof {
                reveal_strlit("\\t");
                assert(out@ =~= pre + json_escape_char(c));
            }
        } else if c == '\u{0a}' {
            out.append("\\n");
            proof {
                reveal_strlit("\\n");
                assert(out@ =~= pre + json_escape_char(c));
            }
        } else if c == '\u{0c}' {
            out.append("\\f");
            proof {
                reveal_strlit("\\f");
                assert(out@ =~= pre + json_escape_char(c));
            }
        } else if c == '\u{0d}' {
            out.append("\\r");
            proof {
                reveal_strlit("\\r");
                assert(out@ =~= pre + json_escape_char(c));
            }
        } else if (c as u32) < 32 {
            out.append("\\u00");
            let hexdigits = "0123456789abcdef";
            proof {
                reveal_strlit("\\u00");
                reveal_strlit("0123456789abcdef");
                assert(hexdigits.is_ascii());
            }
            let d1: usize = ((c as u32) / 16) as usize;
            let d2: usize = ((c as u32) % 16) as usize;
            let p1 = hexdigits.substring_ascii(d1, d1 + 1);
            out.append(p1);
            let p2 = hexdigits.substring_ascii(d2, d2 + 1);
            out.append(p2);
            proof {
                assert(hexdigits@[d1 as int] == hex_char((c as u32) / 16));
                assert(hexdigits@[d2 as int] == hex_char((c as u32) % 16));
                assert(out@ =~= pre + json_escape_char(c));
            }
        } else {
            let piece = s.substring_char(i, i + 1);
            out.append(piece);
            proof {
                assert(piece@ =~= seq![s@[i as int]]);
                assert(out@ =~= pre + json_escape_char(c));
            }
        }
        proof {
            assert(s@.take(i + 1).drop_last() =~= s@.take(i as int));
            assert(s@.take(i + 1).last() == s@[i as int]);
            assert(out@ =~= old(out)@ + json_escaped(s@.take(i + 1)));
        }
        i = i + 1;
    }
    proof {
        assert(s@.take(n as int) =~= s@);
    }
}

/// The canonical runtime data bound into every evaluation request: a UTF-8
/// JSON object of exactly the two keys `nonce` and `tee-pubkey`, in that
/// fixed order, with the nonce escaped as a JSON string and the public
/// key's own JSON text passed through unmodified.
pub open spec fn runtime_data_spec(pubkey_json: Seq<char>, nonce: Seq<char>) -> Seq<char> {
    "{\"nonce\":\""@ + json_escaped(nonce) + "\",\"tee-pubkey\":"@ + pubkey_json + "}"@
}

/// Build the runtime data for one call, from the canonical JSON text of the
/// caller's ephemeral public key and the caller's nonce.
pub fn runtime_data_json(pubkey_json: &str, nonce: &str) -> (r: String)
    ensures
        r@ == runtime_data_spec(pubkey_json@, nonce@),
{
    let mut out = String::from_str("{\"nonce\":\"");
    append_json_escaped(&mut out, nonce);
    out.append("\",\"tee-pubkey\":");
    out.append(pubkey_json);
    out.append("}");
    out
}

/// Law: runtime data is a function of the `(tee_pubkey, nonce)` pair alone,
/// so two independent calls on identical pairs produce byte-identical text.
pub proof fn lemma_runtime_data_deterministic(
    pk1: Seq<char>,
    nonce1: Seq<char>,
    pk2: Seq<char>,
    nonce2: Seq<char>,
)
    requires
        pk1 == pk2,
        nonce1 == nonce2,
    ensures
        runtime_data_spec(pk1, nonce1) == runtime_data_spec(pk2, nonce2),
{
}

} // verus!
