//! Messages and the forwarded payload.
//!
//! Before a message is handed to the outbound relay its content is
//! augmented with forwarding metadata headers: a marker identifying the
//! forwarder, the original message id, and the forwarding timestamp. The
//! original body is never otherwise altered.

use vstd::prelude::*;

verus! {

/// One fetched message: a protocol-assigned id, unique within its account,
/// and the raw message bytes (header and body). Immutable once fetched.
#[derive(Debug, Clone)]
pub struct Email {
    pub id: String,
    pub content: Vec<u8>,
}

/// The bytes handed to the relay for a message with id `id`, forwarding
/// timestamp `timestamp` and original content `content`: three metadata
/// headers prepended to the unaltered content.
pub open spec fn spec_forward_payload(id: Seq<char>, timestamp: Seq<char>, content: Seq<u8>) -> Seq<
    u8,
> {
    vstd::utf8::encode_utf8("X-Forwarded-By: mail-forwarder\r\n"@) + vstd::utf8::encode_utf8(
        "X-Original-Message-ID: "@,
    ) + vstd::utf8::encode_utf8(id) + vstd::utf8::encode_utf8("\r\n"@) + vstd::utf8::encode_utf8(
        "X-Forwarded-Time: "@,
    ) + vstd::utf8::encode_utf8(timestamp) + vstd::utf8::encode_utf8("\r\n"@) + content
}

/// Appends `bytes` to `out`.
fn push_bytes(out: &mut Vec<u8>, bytes: &[u8])
    ensures
        final(out)@ == old(out)@ + bytes@,
{
    let mut k: usize = 0;
    while k < bytes.len()
        invariant
            k <= bytes.len(),
            out@ == old(out)@ + bytes@.take(k as int),
        decreases bytes.len() - k,
    {
        out.push(bytes[k]);
        proof {
            assert(old(out)@ + bytes@.take(k as int + 1) =~= (old(out)@ + bytes@.take(
                k as int,
            )).push(bytes@[k as int]));
        }
        k += 1;
    }
    proof {
        assert(bytes@.take(bytes@.len() as int) =~= bytes@);
    }
}

/// Builds the forwarded payload for `email` with the given timestamp text.
pub fn augment_content(email: &Email, timestamp: &str) -> (r: Vec<u8>)
    ensures
        r@ == spec_forward_payload(email.id@, timestamp@, email.content@),
{
    let mut out: Vec<u8> = Vec::new();
    push_bytes(&mut out, "X-Forwarded-By: mail-forwarder\r\n".as_bytes());
    push_bytes(&mut out, "X-Original-Message-ID: ".as_bytes());
    push_bytes(&mut out, email.id.as_str().as_bytes());
    push_bytes(&mut out, "\r\n".as_bytes());
    push_bytes(&mut out, "X-Forwarded-Time: ".as_bytes());
    push_bytes(&mut out, timestamp.as_bytes());
    push_bytes(&mut out, "\r\n".as_bytes());
    push_bytes(&mut out, email.content.as_slice());
    proof {
        assert(out@ =~= spec_forward_payload(email.id@, timestamp@, email.content@));
    }
    out
}

/// Relies on chrono's `Utc::now` and `DateTime::to_rfc3339` for the
/// forwarding timestamp; the result depends on the clock, so nothing is
/// assumed about it.
#[verifier::external_body]
fn utc_timestamp_rfc3339() -> (r: String) {
    chrono::Utc::now().to_rfc3339()
}

/// Builds the forwarded payload for `email`, timestamped with the current
/// time: the metadata headers followed by the unaltered content.
pub fn forward_payload(email: &Email) -> (r: Vec<u8>)
    ensures
        exists|ts: Seq<char>|
            r@ == spec_forward_payload(email.id@, ts, email.content@),
{
    let ts = utc_timestamp_rfc3339();
    let r = augment_content(email, ts.as_str());
    proof {
        assert(r@ == spec_forward_payload(email.id@, ts@, email.content@));
    }
    r
}

} // verus!
